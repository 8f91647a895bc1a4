use phyrexian_library::application::config::{Configuration, EXTENSION_SET};
use phyrexian_library::application::error::PhyrexianError;
use phyrexian_library::arguments::{CommandLineArguments, Magic, SubCommand};

#[test]
fn test_resource_path() {
    let p = Configuration::resource_path();
    assert_eq!(p.to_str().unwrap(), "resources");
    assert!(p.is_relative());
}

#[test]
fn test_database_path() {
    let p = Configuration::database_path();
    assert_eq!(p.to_str().unwrap(), "resources/databases");
    assert!(p.is_relative());
}

#[test]
fn test_database_import_path() {
    let p = Configuration::database_import_path();
    assert_eq!(p.to_str().unwrap(), "resources/databases/AllPrintings.json");
    assert!(p.is_relative());
}

#[test]
fn test_set_path() {
    let p = Configuration::set_path();
    assert_eq!(p.to_str().unwrap(), "resources/sets");
    assert!(p.is_relative());
}

#[test]
fn test_set_file_path() {
    let p = Configuration::set_file_path("TEST");
    assert_eq!(p.to_str().unwrap(), "resources/sets/TEST.mtgset");
    assert!(p.is_relative());
}

#[test]
fn paths_have_their_components() {
    let names: Vec<String> = Configuration::database_import_path()
        .components()
        .map(|component| component.as_os_str().to_str().unwrap().to_string())
        .collect();
    assert_eq!(names, vec!["resources", "databases", "AllPrintings.json"]);
    let names: Vec<String> = Configuration::set_file_path("M21")
        .components()
        .map(|component| component.as_os_str().to_str().unwrap().to_string())
        .collect();
    assert_eq!(names, vec!["resources", "sets", "M21.mtgset"]);
    assert_eq!(EXTENSION_SET, "mtgset");
}

#[test]
fn errors_are_made_from_texts_and_other_errors() {
    let error = PhyrexianError::from("plain");
    assert!(matches!(error, PhyrexianError::GenericError(_)));
    assert_eq!(error.message(), "plain");
    let error = PhyrexianError::from("owned".to_string());
    assert!(matches!(error, PhyrexianError::GenericError(_)));
    assert_eq!(error.message(), "owned");
    let io = std::io::Error::new(std::io::ErrorKind::NotFound, "no such file");
    let error = PhyrexianError::from(io);
    assert!(matches!(error, PhyrexianError::IOError(_)));
    assert_eq!(error.message(), "no such file");
    let json = serde_json::from_str::<serde_json::Value>("{").unwrap_err();
    let expected = json.to_string();
    let error = PhyrexianError::from(json);
    assert!(matches!(error, PhyrexianError::ConversionError(_)));
    assert_eq!(error.message(), expected);
    let id = uuid::Uuid::parse_str("not a uuid").unwrap_err();
    let expected = id.to_string();
    let error = PhyrexianError::from(id);
    assert!(matches!(error, PhyrexianError::ConversionError(_)));
    assert_eq!(error.message(), expected);
    let date = chrono::NaiveDate::parse_from_str("yesterday", "%Y-%m-%d").unwrap_err();
    let expected = date.to_string();
    let error = PhyrexianError::from(date);
    assert!(matches!(error, PhyrexianError::ConversionError(_)));
    assert_eq!(error.message(), expected);
    let kind = bincode::ErrorKind::SizeLimit;
    let expected = kind.to_string();
    let error = PhyrexianError::from(kind);
    assert!(matches!(error, PhyrexianError::ConversionError(_)));
    assert_eq!(error.message(), expected);
    let boxed: Box<bincode::ErrorKind> = Box::new(bincode::ErrorKind::Custom("broken".to_string()));
    let error = PhyrexianError::from(boxed);
    assert!(matches!(error, PhyrexianError::ConversionError(_)));
    assert_eq!(error.message(), "broken");
}

#[test]
fn arguments_hand_out_what_they_hold() {
    let arguments = CommandLineArguments::new(SubCommand::Magic(Magic::new(true)));
    match arguments.sub_command() {
        SubCommand::Magic(magic) => assert!(magic.gui()),
    }
    assert!(!Magic::new(false).gui());
}
