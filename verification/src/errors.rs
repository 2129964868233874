//! What can go wrong while a changeset description is read, and the text
//! that is shown for it.
use vstd::prelude::*;
use vstd::string::StringExecFns;

verus! {

/// The labeled fields of a changeset description.
#[derive(Clone, Copy, Debug, PartialEq, Eq, Structural)]
pub enum Field {
    BranchName,
    PullRequest,
    DependsOn,
}

impl Field {
    /// The name of the field, as it is written at the start of its line
    /// before the colon.
    pub open spec fn spec_name(self) -> Seq<char> {
        match self {
            Field::BranchName => "Branch name"@,
            Field::PullRequest => "Pull request"@,
            Field::DependsOn => "Depends on"@,
        }
    }

    /// The text that a line of this field begins with.
    pub open spec fn spec_label(self) -> Seq<char> {
        match self {
            Field::BranchName => "Branch name:"@,
            Field::PullRequest => "Pull request:"@,
            Field::DependsOn => "Depends on:"@,
        }
    }

    /// The name of the field.
    pub fn name(self) -> (s: &'static str)
        ensures
            s@ == self.spec_name(),
    {
        match self {
            Field::BranchName => "Branch name",
            Field::PullRequest => "Pull request",
            Field::DependsOn => "Depends on",
        }
    }

    /// The text that a line of this field begins with.
    pub fn label(self) -> (s: &'static str)
        ensures
            s@ == self.spec_label(),
    {
        match self {
            Field::BranchName => "Branch name:",
            Field::PullRequest => "Pull request:",
            Field::DependsOn => "Depends on:",
        }
    }
}

/// The ways in which reading a changeset description, or a pull-request
/// reference in it, fails.
#[derive(Clone, Copy, Debug, PartialEq, Eq, Structural)]
pub enum ParseErrorKind {
    /// A pull-request reference has none of the accepted shapes.
    NoMatch,
    /// The number of a pull-request reference does not fit in 64 bits.
    NumberOverflow,
    /// A field that takes one pull-request reference lists several.
    MultipleReferences,
    /// A field that may stand once stands a second time.
    DuplicateField,
    /// No line of the description is a title.
    MissingTitle,
}

/// A failure to read a changeset description or a pull-request reference.
#[derive(Clone, Debug)]
pub struct ParseError {
    pub kind: ParseErrorKind,
    /// The labeled field in which the failure lies, if it lies in one.
    pub field: Option<Field>,
    /// The offending line or reference; empty where the failure is not that
    /// of one line.
    pub line: String,
    /// The whole text that was being read.
    pub text: String,
}

/// A `ParseError` as plain values.
pub struct ParseErrorView {
    pub kind: ParseErrorKind,
    pub field: Option<Field>,
    pub line: Seq<char>,
    pub text: Seq<char>,
}

impl View for ParseError {
    type V = ParseErrorView;

    open spec fn view(&self) -> ParseErrorView {
        ParseErrorView { kind: self.kind, field: self.field, line: self.line@, text: self.text@ }
    }
}

/// The first words of the message for a failure that lies in a line.
pub open spec fn spec_headline(kind: ParseErrorKind, field: Option<Field>) -> Seq<char> {
    match kind {
        ParseErrorKind::NoMatch => "Could not parse pull request number from '"@,
        ParseErrorKind::NumberOverflow => "Pull request number out of range in '"@,
        ParseErrorKind::MultipleReferences => "More than one pull request in '"@,
        ParseErrorKind::DuplicateField => "Multiple '"@ + (match field {
            Some(f) => f.spec_name(),
            None => Seq::empty(),
        }) + "' fields found, again at '"@,
        ParseErrorKind::MissingTitle => "Could not parse title from '"@,
    }
}

/// The message for a failure: what went wrong, the offending line between
/// quotes, and under it the whole text. A missing title is the failure of
/// no line, so its message holds none.
pub open spec fn spec_description(e: ParseErrorView) -> Seq<char> {
    if e.kind == ParseErrorKind::MissingTitle {
        "Could not parse title from changeset description:\n"@ + e.text
    } else {
        spec_headline(e.kind, e.field) + e.line + "' in changeset description:\n"@ + e.text
    }
}

impl ParseError {
    /// The first words of the message.
    fn headline(&self) -> (s: String)
        ensures
            s@ == spec_headline(self.kind, self.field),
    {
        match self.kind {
            ParseErrorKind::NoMatch => String::from_str(
                "Could not parse pull request number from '",
            ),
            ParseErrorKind::NumberOverflow => String::from_str(
                "Pull request number out of range in '",
            ),
            ParseErrorKind::MultipleReferences => String::from_str(
                "More than one pull request in '",
            ),
            ParseErrorKind::DuplicateField => {
                let mut s = String::from_str("Multiple '");
                match self.field {
                    Some(f) => {
                        s.append(f.name());
                    },
                    None => {
                        assert(s@ + Seq::<char>::empty() =~= s@);
                    },
                }
                s.append("' fields found, again at '");
                s
            },
            ParseErrorKind::MissingTitle => String::from_str("Could not parse title from '"),
        }
    }

    /// The message for this failure. It names what went wrong and echoes the
    /// offending line and the whole text. For a duplicate field it begins with
    /// the word `Multiple`, for a reference that has none of the accepted shapes
    /// with `Could not parse`.
    pub fn description(&self) -> (s: String)
        ensures
            s@ == spec_description(self@),
            self.kind == ParseErrorKind::DuplicateField ==> "Multiple"@.is_prefix_of(s@),
            self.kind == ParseErrorKind::NoMatch ==> "Could not parse"@.is_prefix_of(s@),
    {
        let mut s = match self.kind {
            ParseErrorKind::MissingTitle => String::from_str(
                "Could not parse title from changeset description:\n",
            ),
            _ => {
                let mut s = self.headline();
                s.append(self.line.as_str());
                s.append("' in changeset description:\n");
                s
            },
        };
        s.append(self.text.as_str());
        proof {
            reveal_strlit("Multiple");
            reveal_strlit("Multiple '");
            reveal_strlit("Could not parse");
            reveal_strlit("Could not parse pull request number from '");
            if self.kind == ParseErrorKind::DuplicateField {
                assert("Multiple"@ =~= s@.subrange(0, 8));
            }
            if self.kind == ParseErrorKind::NoMatch {
                assert("Could not parse"@ =~= s@.subrange(0, 15));
            }
        }
        s
    }
}

} // verus!
