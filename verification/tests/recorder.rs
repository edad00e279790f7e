use tracing_wasm::recorder::{set_field, StringRecorder};

fn pair(name: &str, value: &str) -> (String, String) {
    (name.to_string(), value.to_string())
}

#[test]
fn new_recorder_is_empty() {
    let recorder = StringRecorder::new(false);
    assert_eq!(recorder.display, "");
    assert!(!recorder.is_following_args);
    assert!(!recorder.show_fields);
    assert!(recorder.fields.is_empty());
    assert_eq!(recorder.to_text(), "");
    assert_eq!(recorder.trailer(), "");
}

#[test]
fn default_recorder_shows_fields() {
    let recorder = StringRecorder::default();
    assert!(recorder.show_fields);
    assert_eq!(recorder.display, "");
    assert!(recorder.fields.is_empty());
}

#[test]
fn first_message_is_the_display() {
    let mut recorder = StringRecorder::new(true);
    recorder.record("message", "hello");
    assert_eq!(recorder.display, "hello");
    assert_eq!(recorder.to_text(), " hello");
    assert!(recorder.fields.is_empty());
    assert!(!recorder.is_following_args);
}

#[test]
fn later_message_comes_first() {
    let mut recorder = StringRecorder::new(true);
    recorder.record("message", "first");
    recorder.record("message", "second");
    assert_eq!(recorder.display, "second\nfirst");
    assert!(recorder.fields.iter().all(|(name, _)| name != "message"));
    assert!(recorder.fields.is_empty());
}

#[test]
fn empty_first_message_leaves_no_line() {
    let mut recorder = StringRecorder::new(true);
    recorder.record("message", "");
    recorder.record("message", "second");
    assert_eq!(recorder.display, "second");
}

#[test]
fn fields_come_in_recording_order() {
    let mut recorder = StringRecorder::new(true);
    recorder.record("x", "1");
    assert_eq!(recorder.display, " x = 1;");
    assert!(recorder.is_following_args);
    recorder.record("y", "\"two\"");
    recorder.record("z", "3");
    assert_eq!(recorder.display, " x = 1;\ny = \"two\";\nz = 3;");
    assert_eq!(recorder.to_text(), "  x = 1;\ny = \"two\";\nz = 3;");
    assert_eq!(recorder.fields, vec![pair("x", "1"), pair("y", "\"two\""), pair("z", "3")]);
}

#[test]
fn message_goes_in_front_of_fields() {
    let mut recorder = StringRecorder::new(true);
    recorder.record("x", "1");
    recorder.record("message", "done");
    recorder.record("y", "2");
    assert_eq!(recorder.display, "done\n x = 1;\ny = 2;");
    assert_eq!(recorder.fields, vec![pair("x", "1"), pair("y", "2")]);
}

#[test]
fn hidden_fields_leave_no_trace() {
    let mut recorder = StringRecorder::new(false);
    recorder.record("x", "1");
    recorder.record("y", "2");
    assert_eq!(recorder.display, "");
    assert_eq!(recorder.to_text(), "");
    assert!(recorder.fields.is_empty());
    assert!(!recorder.is_following_args);
    recorder.record("message", "only this");
    assert_eq!(recorder.to_text(), " only this");
    assert!(recorder.fields.is_empty());
}

#[test]
fn same_name_overwrites_the_value() {
    let mut recorder = StringRecorder::new(true);
    recorder.record("x", "1");
    recorder.record("y", "2");
    recorder.record("x", "3");
    assert_eq!(recorder.fields, vec![pair("x", "3"), pair("y", "2")]);
    assert_eq!(recorder.display, " x = 1;\ny = 2;\nx = 3;");
}

#[test]
fn record_all_is_record_in_order() {
    let fields = vec![pair("a", "1"), pair("message", "m"), pair("b", "2"), pair("a", "9")];
    let mut all = StringRecorder::new(true);
    all.record_all(&fields);
    let mut one_by_one = StringRecorder::new(true);
    for (name, value) in &fields {
        one_by_one.record(name, value);
    }
    assert_eq!(all.display, one_by_one.display);
    assert_eq!(all.fields, one_by_one.fields);
    assert_eq!(all.display, "m\n a = 1;\nb = 2;\na = 9;");
    assert_eq!(all.fields, vec![pair("a", "9"), pair("b", "2")]);
}

#[test]
fn trailer_lists_the_kept_fields() {
    let mut recorder = StringRecorder::new(true);
    recorder.record("x", "1");
    recorder.record("message", "m");
    recorder.record("name", "\"n\"");
    assert_eq!(recorder.trailer(), "\n\tx: 1\n\tname: \"n\"");
}

#[test]
fn set_field_updates_in_place_or_appends() {
    let mut fields = vec![pair("a", "1"), pair("b", "2")];
    set_field(&mut fields, "b", "3");
    assert_eq!(fields, vec![pair("a", "1"), pair("b", "3")]);
    set_field(&mut fields, "c", "4");
    assert_eq!(fields, vec![pair("a", "1"), pair("b", "3"), pair("c", "4")]);
    set_field(&mut fields, "a", "");
    assert_eq!(fields, vec![pair("a", ""), pair("b", "3"), pair("c", "4")]);
}

#[test]
fn names_that_only_resemble_message_are_fields() {
    let mut recorder = StringRecorder::new(true);
    recorder.record("Message", "1");
    recorder.record("messages", "2");
    recorder.record("", "3");
    assert_eq!(recorder.display, " Message = 1;\nmessages = 2;\n = 3;");
    assert_eq!(recorder.fields.len(), 3);
}
