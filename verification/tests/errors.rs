use stack::errors::{Field, ParseError, ParseErrorKind};

fn error(kind: ParseErrorKind, field: Option<Field>) -> ParseError {
    ParseError { kind, field, line: "LINE".to_string(), text: "TEXT\nMORE".to_string() }
}

#[test]
fn fields_have_names_and_labels() {
    assert_eq!(Field::BranchName.name(), "Branch name");
    assert_eq!(Field::PullRequest.name(), "Pull request");
    assert_eq!(Field::DependsOn.name(), "Depends on");
    assert_eq!(Field::BranchName.label(), "Branch name:");
    assert_eq!(Field::PullRequest.label(), "Pull request:");
    assert_eq!(Field::DependsOn.label(), "Depends on:");
}

#[test]
fn descriptions_name_the_failure_and_echo_line_and_text() {
    assert_eq!(
        error(ParseErrorKind::NoMatch, Some(Field::PullRequest)).description(),
        "Could not parse pull request number from 'LINE' in changeset description:\nTEXT\nMORE"
    );
    assert_eq!(
        error(ParseErrorKind::NumberOverflow, None).description(),
        "Pull request number out of range in 'LINE' in changeset description:\nTEXT\nMORE"
    );
    assert_eq!(
        error(ParseErrorKind::MultipleReferences, Some(Field::PullRequest)).description(),
        "More than one pull request in 'LINE' in changeset description:\nTEXT\nMORE"
    );
    assert_eq!(
        error(ParseErrorKind::DuplicateField, Some(Field::BranchName)).description(),
        "Multiple 'Branch name' fields found, again at 'LINE' in changeset description:\nTEXT\nMORE"
    );
    assert_eq!(
        error(ParseErrorKind::DuplicateField, None).description(),
        "Multiple '' fields found, again at 'LINE' in changeset description:\nTEXT\nMORE"
    );
    assert_eq!(
        error(ParseErrorKind::MissingTitle, None).description(),
        "Could not parse title from changeset description:\nTEXT\nMORE"
    );
}
