use x2y::formats::Format;
use x2y::traversal::{walk_dir, Candidate, Entry};

fn create_file_names(count: usize) -> Vec<String> {
    let mut output = Vec::with_capacity(count);
    for i in 0..count {
        output.push(format!("{}.yaml", i));
    }
    output
}

fn paths(files: &[Candidate]) -> Vec<&str> {
    files.iter().map(|file| file.path.as_str()).collect()
}

#[test]
fn finds_all_target_files() {
    let outer_path = "outer";
    let inner_path = format!("{}/inner", outer_path);

    let file_names = create_file_names(10);
    let mut outer = Vec::new();
    let mut inner = Vec::new();
    for i in 0..file_names.len() {
        // Add files at different depths
        if i % 2 == 0 {
            outer.push(Entry::File(format!("{}/{}", outer_path, file_names[i])));
        } else {
            inner.push(Entry::File(format!("{}/{}", inner_path, file_names[i])));
        }
    }
    outer.push(Entry::Directory(inner));
    let mut target_files = Vec::with_capacity(file_names.len());

    walk_dir(&outer, &mut target_files);

    assert_eq!(target_files.len(), 10);
}

#[test]
fn files_with_other_names_are_passed_over() {
    let listing = vec![
        Entry::File("d/a.yaml".to_string()),
        Entry::File("d/notes.txt".to_string()),
        Entry::File("d/Makefile".to_string()),
        Entry::Directory(vec![
            Entry::File("d/e/b.json".to_string()),
            Entry::File("d/e/c.JSON".to_string()),
            Entry::Other,
            Entry::Directory(vec![Entry::File("d/e/f/g.toml".to_string()), Entry::Other]),
        ]),
        Entry::Other,
        Entry::File("d/h.yml".to_string()),
    ];
    let mut files = Vec::new();
    walk_dir(&listing, &mut files);
    assert_eq!(files.len(), 4);
    assert_eq!(paths(&files), vec!["d/a.yaml", "d/e/b.json", "d/e/f/g.toml", "d/h.yml"]);
    let formats: Vec<Format> = files.iter().map(|file| file.format).collect();
    assert_eq!(formats, vec![Format::Yaml, Format::Json, Format::Toml, Format::Yaml]);
}

#[test]
fn the_walk_is_depth_first_in_the_order_of_the_listing() {
    let listing = vec![
        Entry::Directory(vec![
            Entry::File("r/z/2.yaml".to_string()),
            Entry::Directory(vec![Entry::File("r/z/y/3.yaml".to_string())]),
            Entry::File("r/z/1.yaml".to_string()),
        ]),
        Entry::File("r/0.yaml".to_string()),
    ];
    let mut files = Vec::new();
    walk_dir(&listing, &mut files);
    assert_eq!(paths(&files), vec!["r/z/2.yaml", "r/z/y/3.yaml", "r/z/1.yaml", "r/0.yaml"]);
}

#[test]
fn the_walk_appends_to_what_was_found_before() {
    let mut files = vec![Candidate { path: "earlier.toml".to_string(), format: Format::Toml }];
    walk_dir(&vec![Entry::File("later.json".to_string())], &mut files);
    assert_eq!(paths(&files), vec!["earlier.toml", "later.json"]);
}

#[test]
fn an_empty_tree_has_no_candidates() {
    let mut files = Vec::new();
    walk_dir(&Vec::new(), &mut files);
    assert!(files.is_empty());
    walk_dir(&vec![Entry::Directory(vec![Entry::Directory(Vec::new())]), Entry::Other], &mut files);
    assert!(files.is_empty());
}
