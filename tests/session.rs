use doda::identity::IdentityError;
use doda::session::{optional_name, parse_choice, DodaApp, MenuChoice};

#[test]
fn menu_choices_parse() {
    assert_eq!(parse_choice("1"), MenuChoice::Generate);
    assert_eq!(parse_choice("2"), MenuChoice::Export);
    assert_eq!(parse_choice("3"), MenuChoice::Import);
    assert_eq!(parse_choice("4"), MenuChoice::Exit);
    assert_eq!(parse_choice("5"), MenuChoice::Invalid);
    assert_eq!(parse_choice(""), MenuChoice::Invalid);
    assert_eq!(parse_choice("12"), MenuChoice::Invalid);
}

#[test]
fn empty_name_is_none() {
    assert_eq!(optional_name(""), None);
    assert_eq!(optional_name("alice"), Some("alice".to_string()));
}

#[test]
fn new_app_is_empty() {
    let app = DodaApp::new();
    assert!(app.identity_manager.identity().is_none());
    assert!(app.name_input.is_empty());
    assert!(app.recovery_key_input.is_empty());
    assert!(app.status_message.is_empty());
}

#[test]
fn export_without_identity_reports_error() {
    let mut app = DodaApp::new();
    assert_eq!(app.export_key(), Err(IdentityError::NoIdentityLoaded));
    assert_eq!(app.status_message, "Error exporting recovery key: No identity loaded");
}

#[test]
fn generate_then_export_shows_key() {
    let mut app = DodaApp::new();
    app.name_input = "bob".to_string();
    app.generate_identity().unwrap();
    assert_eq!(app.status_message, "New identity generated successfully!");
    assert_eq!(app.identity_manager.identity().unwrap().name(), &Some("bob".to_string()));
    let key = app.export_key().unwrap();
    assert_eq!(app.status_message, format!("Recovery key: {}", key));
}

#[test]
fn generate_without_name_leaves_label_empty() {
    let mut app = DodaApp::new();
    app.generate_identity().unwrap();
    assert_eq!(app.identity_manager.identity().unwrap().name(), &None);
}

#[test]
fn import_through_front_end() {
    let mut first = DodaApp::new();
    first.generate_identity().unwrap();
    let key = first.export_key().unwrap();
    let mut second = DodaApp::new();
    second.recovery_key_input = key;
    second.import_key().unwrap();
    assert_eq!(second.status_message, "Identity imported successfully!");
    assert_eq!(
        second.identity_manager.identity().unwrap().id(),
        first.identity_manager.identity().unwrap().id()
    );
    second.recovery_key_input = "%%%".to_string();
    assert_eq!(second.import_key(), Err(IdentityError::InvalidRecoveryKey));
    assert_eq!(second.status_message, "Error importing identity: Failed to decode recovery key");
}

#[test]
fn persistence_failure_is_reported() {
    let mut app = DodaApp::new();
    app.report_failure(MenuChoice::Generate, IdentityError::PersistenceError);
    assert_eq!(app.status_message, "Error generating identity: Failed to save identity");
    assert_eq!(IdentityError::KeyDecodingError.describe(), "Failed to create key pair from recovery key");
}
