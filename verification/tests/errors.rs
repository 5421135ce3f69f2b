use x2y::error::{Cause, X2YError};

#[test]
fn an_error_of_the_file_system_becomes_an_io_error() {
    let error = std::io::Error::new(std::io::ErrorKind::NotFound, "gone");
    match X2YError::from(error) {
        X2YError::IO(inner) => {
            assert_eq!(inner.kind(), std::io::ErrorKind::NotFound);
            assert_eq!(inner.to_string(), "gone");
        }
        other => panic!("expected an io error, got {:?}", other),
    }
}

#[test]
fn an_error_of_a_parser_becomes_a_transcode_error_that_wraps_it() {
    let json = serde_json::from_str::<serde_json::Value>("{").unwrap_err();
    let text = json.to_string();
    match X2YError::from(json) {
        X2YError::Transcode(Cause::Json(inner)) => assert_eq!(inner.to_string(), text),
        other => panic!("expected a wrapped json error, got {:?}", other),
    }

    let yaml = serde_yaml::from_str::<serde_yaml::Value>("a: [1").unwrap_err();
    let text = yaml.to_string();
    match X2YError::from(yaml) {
        X2YError::Transcode(Cause::Yaml(inner)) => assert_eq!(inner.to_string(), text),
        other => panic!("expected a wrapped yaml error, got {:?}", other),
    }

    let toml = toml::from_str::<toml::Value>("a = ").unwrap_err();
    let text = toml.to_string();
    match X2YError::from(toml) {
        X2YError::Transcode(Cause::TomlRead(inner)) => assert_eq!(inner.to_string(), text),
        other => panic!("expected a wrapped toml error, got {:?}", other),
    }
}

#[test]
fn an_error_of_a_printer_becomes_a_transcode_error_that_wraps_it() {
    let toml = toml::to_string_pretty(&toml::Value::Integer(3)).unwrap_err();
    let text = toml.to_string();
    match X2YError::from(toml) {
        X2YError::Transcode(Cause::TomlWrite(inner)) => assert_eq!(inner.to_string(), text),
        other => panic!("expected a wrapped toml error, got {:?}", other),
    }
}
