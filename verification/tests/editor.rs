use stack::editor::{editor_program, signed_decimal_string, EditorExit, SourceError};
use stack::errors::{ParseError, ParseErrorKind};

#[test]
fn editor_is_visual_then_editor_then_vi() {
    assert_eq!(editor_program(Some("emacs"), Some("nano")), "emacs");
    assert_eq!(editor_program(Some("emacs"), None), "emacs");
    assert_eq!(editor_program(None, Some("nano")), "nano");
    assert_eq!(editor_program(None, None), "vi");
    assert_eq!(editor_program(Some(""), Some("nano")), "");
}

#[test]
fn only_exit_code_zero_is_success() {
    assert!(EditorExit::Exited(0).succeeded());
    assert!(!EditorExit::Exited(1).succeeded());
    assert!(!EditorExit::Exited(-1).succeeded());
    assert!(!EditorExit::Exited(i32::MIN).succeeded());
    assert!(!EditorExit::Signaled.succeeded());
}

#[test]
fn signed_decimal_writes_the_sign_and_the_digits() {
    assert_eq!(signed_decimal_string(0), "0");
    assert_eq!(signed_decimal_string(42), "42");
    assert_eq!(signed_decimal_string(-1), "-1");
    assert_eq!(signed_decimal_string(i32::MAX), "2147483647");
    assert_eq!(signed_decimal_string(i32::MIN), "-2147483648");
}

#[test]
fn aborted_editor_says_how_it_ended() {
    assert_eq!(
        SourceError::EditorAborted(EditorExit::Exited(3)).description(),
        "Editor exited with code '3'."
    );
    assert_eq!(
        SourceError::EditorAborted(EditorExit::Exited(-7)).description(),
        "Editor exited with code '-7'."
    );
    assert_eq!(
        SourceError::EditorAborted(EditorExit::Signaled).description(),
        "Editor terminated by signal."
    );
}

#[test]
fn parse_failure_keeps_its_message() {
    let error = ParseError {
        kind: ParseErrorKind::MissingTitle,
        field: None,
        line: String::new(),
        text: "# x".to_string(),
    };
    let expected = error.description();
    assert_eq!(SourceError::Parse(error).description(), expected);
    assert_eq!(expected, "Could not parse title from changeset description:\n# x");
}
