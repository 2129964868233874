use stack::changeset::Changeset;
use stack::editor::{EditorExit, SourceError};
use stack::errors::{Field, ParseErrorKind};

/// Takes the common indentation away from the lines of `text`, and a first
/// line that is empty, so that a description can be written indented in a
/// test.
fn indoc(text: &str) -> String {
    let lines: Vec<&str> = text.split('\n').collect();
    let indent = lines
        .iter()
        .skip(1)
        .filter(|line| !line.trim().is_empty())
        .map(|line| line.len() - line.trim_start_matches(' ').len())
        .min()
        .unwrap_or(0);
    let mut out: Vec<String> = Vec::new();
    for (i, line) in lines.iter().enumerate() {
        if i == 0 {
            if !line.is_empty() {
                out.push(line.to_string());
            }
        } else if line.trim().is_empty() {
            out.push(String::new());
        } else {
            out.push(line[indent..].to_string());
        }
    }
    out.join("\n")
}

fn message_fixture() -> String {
    indoc(
        "

        # First comment
        This is the title.
        # Another comment

        This is the first line of the description.
        # This is a comment in the middle of the description
        This is the second line of the description.

        Branch name: hello

        Pull request: https://github.com/Coneko/stack/pull/4
        ",
    )
}

#[test]
fn new_from_string_cannot_create_from_empty_string() {
    let result = Changeset::new_from_string("", "Coneko", "stack");
    assert!(result.is_err());
}

#[test]
fn new_from_string_cannot_create_from_string_without_title() {
    let message = indoc(
        "

            # comment
            Branch name: hello
            Pull request: https://github.com/Coneko/stack/pull/1
            ",
    );
    let result = Changeset::new_from_string(&message, "Coneko", "stack");
    assert!(result.is_err());
}

#[test]
fn new_from_string_can_create_from_string_with_only_title() {
    let message = indoc(
        "
            This is the title.
            ",
    );
    let result = Changeset::new_from_string(&message, "Coneko", "stack");
    assert!(result.is_ok());
    let result = result.unwrap();
    assert_eq!(result.title, "This is the title.");
}

#[test]
fn new_from_string_can_read_title() {
    let result = Changeset::new_from_string(&message_fixture(), "Coneko", "stack");
    assert!(result.is_ok());
    let result = result.unwrap();
    assert_eq!(result.title, "This is the title.")
}

#[test]
fn new_from_string_can_read_message() {
    let result = Changeset::new_from_string(&message_fixture(), "Coneko", "stack");
    assert!(result.is_ok());
    let result = result.unwrap();
    assert!(result.message.is_some());
    let message = result.message.unwrap();
    assert_eq!(
        message,
        "This is the first line of the description.\nThis is the second line of the description.",
    );
}

#[test]
fn new_from_string_can_read_branch() {
    let result = Changeset::new_from_string(&message_fixture(), "Coneko", "stack");
    assert!(result.is_ok());
    let result = result.unwrap();
    assert!(result.branch.is_some());
    let branch = result.branch.unwrap();
    assert_eq!(branch, "hello".to_string());
}

#[test]
fn new_from_string_can_read_pr() {
    let result = Changeset::new_from_string(&message_fixture(), "Coneko", "stack");
    assert!(result.is_ok());
    let result = result.unwrap();
    assert!(result.pr.is_some());
    let pr = result.pr.unwrap();
    assert_eq!(pr, "https://github.com/Coneko/stack/pull/4");
}

#[test]
fn new_from_string_cannot_create_from_string_with_multiple_pr_fields() {
    let message = indoc(
        "
            This is the title.

            Pull request: https://github.com/Coneko/stack/pull/1
            This is the longer description of the commit.
            Pull request: https://github.com/Coneko/stack/pull/1
            ",
    );
    let result = Changeset::new_from_string(&message, "Coneko", "stack");
    assert!(result.is_err());
    let result = result.err().unwrap();
    assert!(result.description().contains("Multiple"));
}

#[test]
fn new_from_string_cannot_create_from_string_with_invalid_pr_field() {
    let message = indoc(
        "
            This is the title.

            Pull request: hello
            ",
    );
    let result = Changeset::new_from_string(&message, "Coneko", "stack");
    assert!(result.is_err());
    let result = result.err().unwrap();
    assert!(result.description().contains("Could not parse"));
}

#[test]
fn parse_pull_request_cannot_parse_pr_from_empty_string() {
    let result = Changeset::parse_pull_request("", "Coneko", "stack");
    assert!(result.is_err());
}

#[test]
fn parse_pull_request_cannot_parse_invalid_pr_field() {
    let result = Changeset::parse_pull_request("not a valid PR reference", "Coneko", "stack");
    assert!(result.is_err());
}

#[test]
fn parse_pull_request_can_parse_number() {
    let result = Changeset::parse_pull_request("1", "Coneko", "stack");
    assert!(result.is_ok());
    assert_eq!(result.unwrap(), "https://github.com/Coneko/stack/pull/1");
}

#[test]
fn parse_pull_request_can_parse_pr_reference() {
    let result = Changeset::parse_pull_request("#1", "Coneko", "stack");
    assert!(result.is_ok());
    assert_eq!(result.unwrap(), "https://github.com/Coneko/stack/pull/1");
}

#[test]
fn parse_pull_request_can_parse_https_url() {
    let result = Changeset::parse_pull_request(
        "https://github.com/Coneko/stack/pull/1",
        "Coneko",
        "stack",
    );
    assert!(result.is_ok());
    assert_eq!(result.unwrap(), "https://github.com/Coneko/stack/pull/1");
}

#[test]
fn parse_pull_request_can_parse_http_url() {
    let result = Changeset::parse_pull_request(
        "http://github.com/Coneko/stack/pull/1",
        "Coneko",
        "stack",
    );
    assert!(result.is_ok());
    assert_eq!(result.unwrap(), "https://github.com/Coneko/stack/pull/1");
}

#[test]
fn only_blank_lines_and_comments_have_no_title() {
    for text in ["", "\n", "\n\n\n", "# a comment", "# one\n\n# two\n", "#\n#\n", "\r\n# x\r\n"] {
        let error = Changeset::new_from_string(text, "Coneko", "stack").err().unwrap();
        assert_eq!(error.kind, ParseErrorKind::MissingTitle);
        assert_eq!(error.field, None);
        assert_eq!(error.line, "");
        assert_eq!(error.text, text);
    }
}

#[test]
fn single_line_is_the_title_and_there_is_no_message() {
    for text in ["Fix the frobnicator", "Fix the frobnicator\n", "  indented title  ", "Pull request"] {
        let changeset = Changeset::new_from_string(text, "Coneko", "stack").unwrap();
        assert_eq!(changeset.title, text.trim_end_matches('\n'));
        assert_eq!(changeset.message, None);
        assert_eq!(changeset.branch, None);
        assert_eq!(changeset.pr, None);
        assert_eq!(changeset.dependencies, Vec::<u64>::new());
    }
}

#[test]
fn title_and_two_lines_give_the_two_lines_as_message() {
    let changeset =
        Changeset::new_from_string("Title\nfirst line\nsecond line\n", "Coneko", "stack").unwrap();
    assert_eq!(changeset.title, "Title");
    assert_eq!(changeset.message, Some("first line\nsecond line".to_string()));
}

#[test]
fn one_body_line_is_the_message_without_line_feed() {
    let changeset = Changeset::new_from_string("Title\n\nbody", "Coneko", "stack").unwrap();
    assert_eq!(changeset.message, Some("body".to_string()));
}

#[test]
fn second_pull_request_field_is_a_duplicate() {
    let text = "Title\nPull request: 1\nPull request: #2\n";
    let error = Changeset::new_from_string(text, "Coneko", "stack").err().unwrap();
    assert_eq!(error.kind, ParseErrorKind::DuplicateField);
    assert_eq!(error.field, Some(Field::PullRequest));
    assert_eq!(error.line, "Pull request: #2");
    assert_eq!(error.text, text);
    let description = error.description();
    assert!(description.starts_with("Multiple 'Pull request' fields found"));
    assert!(description.contains("Pull request: #2"));
    assert!(description.ends_with(text));
}

#[test]
fn second_branch_name_field_is_a_duplicate() {
    let text = "Branch name: a\nTitle\nBranch name: b";
    let error = Changeset::new_from_string(text, "Coneko", "stack").err().unwrap();
    assert_eq!(error.kind, ParseErrorKind::DuplicateField);
    assert_eq!(error.field, Some(Field::BranchName));
    assert_eq!(error.line, "Branch name: b");
    assert!(error.description().starts_with("Multiple 'Branch name' fields found"));
}

#[test]
fn depends_on_fields_accumulate_in_order() {
    let text = "Title\n\
                Depends on: https://github.com/Coneko/stack/pull/1, https://github.com/Coneko/stack/pull/2\n\
                Depends on: https://github.com/Coneko/stack/pull/3\n";
    let changeset = Changeset::new_from_string(text, "Coneko", "stack").unwrap();
    assert_eq!(changeset.dependencies, vec![1, 2, 3]);
    assert_eq!(changeset.title, "Title");
    assert_eq!(changeset.message, None);
}

#[test]
fn depends_on_keeps_duplicates_and_mixed_shapes() {
    let text = "Depends on: 7, #7 ,http://github.com/Coneko/stack/pull/7\nTitle\nDepends on:  12\n";
    let changeset = Changeset::new_from_string(text, "Coneko", "stack").unwrap();
    assert_eq!(changeset.dependencies, vec![7, 7, 7, 12]);
}

#[test]
fn depends_on_with_an_invalid_reference_fails_as_a_whole() {
    let text = "Title\nDepends on: 1, two, 3\n";
    let error = Changeset::new_from_string(text, "Coneko", "stack").err().unwrap();
    assert_eq!(error.kind, ParseErrorKind::NoMatch);
    assert_eq!(error.field, Some(Field::DependsOn));
    assert_eq!(error.line, "Depends on: 1, two, 3");
    assert_eq!(error.text, text);
}

#[test]
fn depends_on_without_a_reference_fails() {
    let error = Changeset::new_from_string("Title\nDepends on:\n", "Coneko", "stack").err().unwrap();
    assert_eq!(error.kind, ParseErrorKind::NoMatch);
    assert_eq!(error.field, Some(Field::DependsOn));
}

#[test]
fn pull_request_field_with_two_references_is_not_a_parse_failure() {
    let text = "Title\nPull request: 1, 2\n";
    let error = Changeset::new_from_string(text, "Coneko", "stack").err().unwrap();
    assert_eq!(error.kind, ParseErrorKind::MultipleReferences);
    assert_eq!(error.field, Some(Field::PullRequest));
    assert_eq!(error.line, "Pull request: 1, 2");
    assert!(error.description().starts_with("More than one pull request in 'Pull request: 1, 2'"));
}

#[test]
fn pull_request_field_without_a_reference_fails() {
    let error = Changeset::new_from_string("Title\nPull request:   \n", "Coneko", "stack").err().unwrap();
    assert_eq!(error.kind, ParseErrorKind::NoMatch);
    assert_eq!(error.field, Some(Field::PullRequest));
}

#[test]
fn pull_request_field_with_a_number_too_large_overflows() {
    let text = "Title\nPull request: 18446744073709551616\n";
    let error = Changeset::new_from_string(text, "Coneko", "stack").err().unwrap();
    assert_eq!(error.kind, ParseErrorKind::NumberOverflow);
    assert_eq!(error.field, Some(Field::PullRequest));
}

#[test]
fn pull_request_of_another_repository_is_rejected() {
    for line in [
        "Pull request: https://github.com/coneko/stack/pull/4",
        "Pull request: https://github.com/Coneko/stacks/pull/4",
        "Pull request: https://github.com/Other/stack/pull/4",
        "Pull request: https://gitlab.com/Coneko/stack/pull/4",
        "Pull request: https://githubXcom/Coneko/stack/pull/4",
    ] {
        let text = format!("Title\n{}\n", line);
        let error = Changeset::new_from_string(&text, "Coneko", "stack").err().unwrap();
        assert_eq!(error.kind, ParseErrorKind::NoMatch);
        assert_eq!(error.line, line);
    }
}

#[test]
fn invalid_pull_request_error_echoes_line_and_text() {
    let text = "This is the title.\n\nPull request: hello\n";
    let error = Changeset::new_from_string(text, "Coneko", "stack").err().unwrap();
    assert_eq!(
        error.description(),
        "Could not parse pull request number from 'Pull request: hello' in changeset description:\n\
         This is the title.\n\nPull request: hello\n"
    );
}

#[test]
fn missing_title_error_echoes_the_text() {
    let error = Changeset::new_from_string("# nothing\n", "Coneko", "stack").err().unwrap();
    assert_eq!(
        error.description(),
        "Could not parse title from changeset description:\n# nothing\n"
    );
}

#[test]
fn reading_stops_at_the_first_rejected_line() {
    let text = "Pull request: x\nPull request: 1\nPull request: 2\n";
    let error = Changeset::new_from_string(text, "Coneko", "stack").err().unwrap();
    assert_eq!(error.kind, ParseErrorKind::NoMatch);
    assert_eq!(error.line, "Pull request: x");
}

#[test]
fn comments_and_blank_lines_are_ignored_wherever_they_stand() {
    let plain = Changeset::new_from_string("Title\none\ntwo\nBranch name: b\n", "o", "r").unwrap();
    let noisy = Changeset::new_from_string(
        "\n# c\n\nTitle\n# c\n\n\none\n#\ntwo\n\n# Branch name: x\nBranch name: b\n#Pull request: 1\n\n",
        "o",
        "r",
    )
    .unwrap();
    assert_eq!(plain.title, noisy.title);
    assert_eq!(plain.message, noisy.message);
    assert_eq!(plain.branch, noisy.branch);
    assert_eq!(noisy.pr, None);
    assert_eq!(noisy.message, Some("one\ntwo".to_string()));
}

#[test]
fn labels_and_comments_count_only_at_the_start_of_a_line() {
    let changeset = Changeset::new_from_string(
        " # not a comment\n Pull request: not a field\nbranch name: lower case\n   \n",
        "o",
        "r",
    )
    .unwrap();
    assert_eq!(changeset.title, " # not a comment");
    assert_eq!(
        changeset.message,
        Some(" Pull request: not a field\nbranch name: lower case\n   ".to_string())
    );
    assert_eq!(changeset.pr, None);
    assert_eq!(changeset.branch, None);
}

#[test]
fn branch_name_is_trimmed_and_may_be_empty() {
    let changeset = Changeset::new_from_string("T\nBranch name: \t my branch \u{3000}\n", "o", "r").unwrap();
    assert_eq!(changeset.branch, Some("my branch".to_string()));
    let changeset = Changeset::new_from_string("T\nBranch name:\n", "o", "r").unwrap();
    assert_eq!(changeset.branch, Some(String::new()));
    let changeset = Changeset::new_from_string("T\nBranch name:x", "o", "r").unwrap();
    assert_eq!(changeset.branch, Some("x".to_string()));
}

#[test]
fn fields_may_stand_before_the_title() {
    let changeset =
        Changeset::new_from_string("Pull request: #9\nDepends on: 8\nTitle\n", "Coneko", "stack").unwrap();
    assert_eq!(changeset.title, "Title");
    assert_eq!(changeset.pr, Some("https://github.com/Coneko/stack/pull/9".to_string()));
    assert_eq!(changeset.dependencies, vec![8]);
}

#[test]
fn carriage_returns_before_line_feeds_are_not_part_of_the_line() {
    let changeset =
        Changeset::new_from_string("Title\r\n\r\nbody one\r\nbody two\r\n", "o", "r").unwrap();
    assert_eq!(changeset.title, "Title");
    assert_eq!(changeset.message, Some("body one\nbody two".to_string()));
    let changeset = Changeset::new_from_string("Title\r", "o", "r").unwrap();
    assert_eq!(changeset.title, "Title\r");
    let changeset = Changeset::new_from_string("Ti\rtle\r\r\n", "o", "r").unwrap();
    assert_eq!(changeset.title, "Ti\rtle\r");
}

#[test]
fn text_beyond_ascii_is_kept_character_by_character() {
    let changeset = Changeset::new_from_string(
        "Ünïcödé tïtle ✓\n# köm\nzweite Zeile — ok\nBranch name: \u{2003}brânch\u{a0}\n",
        "o",
        "r",
    )
    .unwrap();
    assert_eq!(changeset.title, "Ünïcödé tïtle ✓");
    assert_eq!(changeset.message, Some("zweite Zeile — ok".to_string()));
    assert_eq!(changeset.branch, Some("brânch".to_string()));
}

#[test]
fn pull_request_field_gives_the_canonical_address() {
    for value in ["12", " #12", "http://github.com/Coneko/stack/pull/012", "\thttps://github.com/Coneko/stack/pull/12 "] {
        let text = format!("Title\nPull request:{}\n", value);
        let changeset = Changeset::new_from_string(&text, "Coneko", "stack").unwrap();
        assert_eq!(changeset.pr, Some("https://github.com/Coneko/stack/pull/12".to_string()));
    }
}

#[test]
fn parse_pull_request_error_echoes_the_reference() {
    let error = Changeset::parse_pull_request("nope", "Coneko", "stack").err().unwrap();
    assert_eq!(error.kind, ParseErrorKind::NoMatch);
    assert_eq!(error.field, None);
    assert_eq!(error.line, "nope");
    assert_eq!(error.text, "nope");
    let error =
        Changeset::parse_pull_request("#99999999999999999999", "Coneko", "stack").err().unwrap();
    assert_eq!(error.kind, ParseErrorKind::NumberOverflow);
    assert!(error.description().starts_with("Pull request number out of range in '#99999999999999999999'"));
}

#[test]
fn new_from_editor_reads_what_a_successful_editor_wrote() {
    let changeset =
        Changeset::new_from_editor(EditorExit::Exited(0), "Title\nbody\n", "Coneko", "stack").unwrap();
    assert_eq!(changeset.title, "Title");
    assert_eq!(changeset.message, Some("body".to_string()));
}

#[test]
fn new_from_editor_does_not_read_after_a_failed_editor() {
    for exit in [EditorExit::Exited(1), EditorExit::Exited(-1), EditorExit::Exited(130), EditorExit::Signaled] {
        match Changeset::new_from_editor(exit, "A perfectly fine title\n", "Coneko", "stack") {
            Err(SourceError::EditorAborted(reported)) => assert_eq!(reported, exit),
            other => panic!("expected an aborted editor, got {:?}", other),
        }
    }
}

#[test]
fn new_from_editor_passes_parse_failures_on() {
    match Changeset::new_from_editor(EditorExit::Exited(0), "# nothing\n", "Coneko", "stack") {
        Err(SourceError::Parse(error)) => assert_eq!(error.kind, ParseErrorKind::MissingTitle),
        other => panic!("expected a parse failure, got {:?}", other),
    }
}
