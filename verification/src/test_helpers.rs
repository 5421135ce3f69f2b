//! Two small documents to try conversions on.

use vstd::prelude::*;

verus! {

/// A document with a single field.
#[derive(Debug)]
pub struct Basic {
    name: String,
}

/// A `Basic` as contracts speak of it.
pub struct BasicView {
    pub name: Seq<char>,
}

impl View for Basic {
    type V = BasicView;

    closed spec fn view(&self) -> BasicView {
        BasicView { name: self.name@ }
    }
}

impl Basic {
    /// The document whose name is John Doe.
    pub fn new() -> (basic: Self)
        ensures
            basic@ == (BasicView { name: "John Doe"@ }),
    {
        Self { name: "John Doe".to_owned() }
    }

    /// The name.
    pub fn name(&self) -> (name: &str)
        ensures
            name@ == self@.name,
    {
        self.name.as_str()
    }
}

impl Default for Basic {
    fn default() -> (basic: Self)
        ensures
            basic@ == (BasicView { name: "John Doe"@ }),
    {
        Self::new()
    }
}

/// What an `Intermediate` says of the person it names.
#[derive(Debug)]
pub struct Details {
    age: u8,
    height: u8,
    likes: [String; 3],
}

/// `Details` as contracts speak of them.
pub struct DetailsView {
    pub age: u8,
    pub height: u8,
    pub likes: Seq<Seq<char>>,
}

impl View for Details {
    type V = DetailsView;

    closed spec fn view(&self) -> DetailsView {
        DetailsView {
            age: self.age,
            height: self.height,
            likes: self.likes@.map_values(|like: String| like@),
        }
    }
}

impl Details {
    /// The age, in years.
    pub fn age(&self) -> (age: u8)
        ensures
            age == self@.age,
    {
        self.age
    }

    /// The height, in centimetres.
    pub fn height(&self) -> (height: u8)
        ensures
            height == self@.height,
    {
        self.height
    }

    /// The three likes.
    pub fn likes(&self) -> (likes: &[String; 3])
        ensures
            likes@.map_values(|like: String| like@) == self@.likes,
    {
        &self.likes
    }
}

/// A document with a field and a nested table that holds a list.
#[derive(Debug)]
pub struct Intermediate {
    name: String,
    details: Details,
}

/// An `Intermediate` as contracts speak of it.
pub struct IntermediateView {
    pub name: Seq<char>,
    pub details: DetailsView,
}

impl View for Intermediate {
    type V = IntermediateView;

    closed spec fn view(&self) -> IntermediateView {
        IntermediateView { name: self.name@, details: self.details@ }
    }
}

impl Default for Intermediate {
    fn default() -> (intermediate: Self)
        ensures
            intermediate@ == Intermediate::john_doe(),
    {
        Self::new()
    }
}

impl Intermediate {
    /// What `new` builds.
    pub open spec fn john_doe() -> IntermediateView {
        IntermediateView {
            name: "John Doe"@,
            details: DetailsView {
                age: 25,
                height: 186,
                likes: seq!["cheese"@, "the color blue"@, "rock music"@],
            },
        }
    }

    /// The document on John Doe, who is 25, 186 tall, and likes cheese, the
    /// color blue and rock music.
    pub fn new() -> (intermediate: Self)
        ensures
            intermediate@ == Self::john_doe(),
    {
        let intermediate = Self {
            name: "John Doe".to_owned(),
            details: Details {
                age: 25,
                height: 186,
                likes: ["cheese".to_owned(), "the color blue".to_owned(), "rock music".to_owned()],
            },
        };
        assert(intermediate@.details.likes =~= Self::john_doe().details.likes);
        intermediate
    }

    /// The name.
    pub fn name(&self) -> (name: &str)
        ensures
            name@ == self@.name,
    {
        self.name.as_str()
    }

    /// The details.
    pub fn details(&self) -> (details: &Details)
        ensures
            details@ == self@.details,
    {
        &self.details
    }
}

} // verus!
