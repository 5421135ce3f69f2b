use x2y::error::X2YError;
use x2y::formats::Format;

fn description(outcome: Result<Format, X2YError>) -> String {
    match outcome {
        Err(X2YError::InvalidInput(text)) => text,
        other => panic!("expected invalid input, got {:?}", other),
    }
}

#[test]
fn a_format_is_extracted_from_a_path() {
    let input = "directory/test.yaml";
    let format = Format::try_from(input).unwrap();
    assert_eq!(Format::Yaml, format);
}

#[test]
fn a_path_containing_an_unsupported_file_format_is_not_extracted() {
    let input = "directory/test.cpp";
    let format = Format::try_from(input);
    assert!(format.is_err());
}

#[test]
fn a_path_of_just_a_file_format_is_extracted() {
    let input = "yaml";
    let format = Format::try_from(input).unwrap();
    assert_eq!(Format::Yaml, format);
}

#[test]
fn every_supported_extension_is_detected() {
    assert_eq!(Format::try_from("a.yaml").unwrap(), Format::Yaml);
    assert_eq!(Format::try_from("a.yml").unwrap(), Format::Yaml);
    assert_eq!(Format::try_from("a.json").unwrap(), Format::Json);
    assert_eq!(Format::try_from("a.toml").unwrap(), Format::Toml);
    assert_eq!(Format::try_from("/deep/down/in.a.tree/config.toml").unwrap(), Format::Toml);
}

#[test]
fn every_bare_name_is_detected() {
    assert_eq!(Format::try_from("yaml").unwrap(), Format::Yaml);
    assert_eq!(Format::try_from("yml").unwrap(), Format::Yaml);
    assert_eq!(Format::try_from("json").unwrap(), Format::Json);
    assert_eq!(Format::try_from("toml").unwrap(), Format::Toml);
}

#[test]
fn the_extension_decides_and_not_the_rest_of_the_path() {
    assert_eq!(Format::try_from("yaml.json").unwrap(), Format::Json);
    assert_eq!(Format::try_from("json/file.yml").unwrap(), Format::Yaml);
    assert!(Format::try_from("yaml.txt").is_err());
    assert!(Format::try_from("dir.yaml/notes").is_err());
}

#[test]
fn an_unsupported_extension_is_named_in_the_error() {
    assert_eq!(
        description(Format::try_from("directory/test.cpp")),
        "cpp is not a supported file format."
    );
    assert_eq!(description(Format::try_from("xml")), "xml is not a supported file format.");
    assert_eq!(description(Format::try_from("")), " is not a supported file format.");
}

#[test]
fn white_space_around_a_name_is_ignored() {
    assert_eq!(Format::try_from(" json").unwrap(), Format::Json);
    assert_eq!(Format::try_from("\tyaml \n").unwrap(), Format::Yaml);
    assert_eq!(Format::try_from("file. toml ").unwrap(), Format::Toml);
    assert_eq!(Format::try_from("\u{a0}yml\u{3000}").unwrap(), Format::Yaml);
    assert_eq!(description(Format::try_from("  ini  ")), "ini is not a supported file format.");
}

#[test]
fn white_space_inside_a_name_is_not_ignored() {
    assert!(Format::try_from("js on").is_err());
    assert!(Format::try_from("file.ya ml").is_err());
}

#[test]
fn names_are_case_sensitive() {
    assert!(Format::try_from("a.YAML").is_err());
    assert!(Format::try_from("Json").is_err());
    assert!(Format::try_from("TOML").is_err());
}

#[test]
fn a_hidden_file_without_extension_is_read_as_a_whole() {
    assert_eq!(
        description(Format::try_from(".yaml")),
        ".yaml is not a supported file format."
    );
    assert_eq!(Format::try_from(".hidden.yaml").unwrap(), Format::Yaml);
}

#[test]
fn from_name_reads_only_the_text_it_is_given() {
    assert_eq!(Format::from_name("yaml").unwrap(), Format::Yaml);
    assert_eq!(Format::from_name(" toml ").unwrap(), Format::Toml);
    assert_eq!(
        description(Format::from_name("a.yaml")),
        "a.yaml is not a supported file format."
    );
}

#[test]
fn detect_prefers_the_extension_to_the_whole() {
    assert_eq!(Format::detect(Some(Some("json")), Some("yaml")).unwrap(), Format::Json);
    assert_eq!(Format::detect(None, Some("yaml")).unwrap(), Format::Yaml);
    assert_eq!(Format::detect(Some(Some("toml")), None).unwrap(), Format::Toml);
    assert_eq!(
        description(Format::detect(Some(Some("cpp")), Some("yaml"))),
        "cpp is not a supported file format."
    );
}

#[test]
fn detect_refuses_what_is_not_text() {
    assert_eq!(
        description(Format::detect(Some(None), Some("yaml"))),
        "the extension contains invalid unicode."
    );
    assert_eq!(
        description(Format::detect(None, None)),
        "the path has no retrievable extension."
    );
}

#[test]
fn a_format_is_written_by_its_name() {
    assert_eq!(Format::Yaml.to_string(), "yaml");
    assert_eq!(Format::Json.to_string(), "json");
    assert_eq!(Format::Toml.to_string(), "toml");
    for format in [Format::Yaml, Format::Json, Format::Toml] {
        assert_eq!(Format::try_from(format.to_string().as_str()).unwrap(), format);
    }
}
