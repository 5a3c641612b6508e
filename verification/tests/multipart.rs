use the_handler::multipart::{FieldAction, MultipartCollector, ParseMultipartError};

#[test]
fn parts_are_classified() {
    let c = MultipartCollector::new(vec!["resume".to_string()]);
    assert_eq!(c.classify(&"resume".to_string(), true), FieldAction::KeepFile);
    assert_eq!(c.classify(&"photo".to_string(), true), FieldAction::Skip);
    assert_eq!(c.classify(&"label".to_string(), false), FieldAction::ReadText);
}

#[test]
fn every_required_file_must_arrive() {
    let mut c = MultipartCollector::new(vec!["resume".to_string(), "cover".to_string()]);
    c.record_file("resume".to_string());
    c.record_file("resume".to_string());
    c.record_text("label".to_string(), "CV".to_string());
    assert_eq!(c.finish(), Err(ParseMultipartError::MissingRequiredFiles));
}

#[test]
fn later_text_values_win() {
    let mut c = MultipartCollector::new(vec!["resume".to_string()]);
    c.record_text("label".to_string(), "first".to_string());
    c.record_text("kind".to_string(), "upload".to_string());
    c.record_text("label".to_string(), "second".to_string());
    c.record_file("resume".to_string());
    let fields = c.finish().unwrap();
    assert_eq!(
        fields,
        vec![("label".to_string(), "second".to_string()), ("kind".to_string(), "upload".to_string())]
    );
}

#[test]
fn no_required_files() {
    let c = MultipartCollector::new(vec![]);
    assert_eq!(c.finish(), Ok(vec![]));
}
