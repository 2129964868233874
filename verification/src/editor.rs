//! The editor session in which the author writes the changeset
//! description: which program to start, and what its exit means.
use crate::errors::{spec_description, ParseError, ParseErrorView};
use crate::pull_request::{decimal_string, spec_decimal};
use crate::text::spec_opt_str;
use vstd::prelude::*;
use vstd::string::StringExecFns;

verus! {

/// The name of the editor that is started when the environment names none.
pub open spec fn spec_default_editor() -> Seq<char> {
    "vi"@
}

/// The editor to start: the one that `VISUAL` names, else the one that
/// `EDITOR` names, else `vi`.
pub open spec fn spec_editor_program(visual: Option<Seq<char>>, editor: Option<Seq<char>>) -> Seq<
    char,
> {
    match visual {
        Some(program) => program,
        None => match editor {
            Some(program) => program,
            None => spec_default_editor(),
        },
    }
}

/// The editor to start, given the values of the environment variables
/// `VISUAL` and `EDITOR` as far as they are set.
pub fn editor_program(visual: Option<&str>, editor: Option<&str>) -> (program: String)
    ensures
        program@ == spec_editor_program(
            spec_opt_str(visual),
            spec_opt_str(editor),
        ),
{
    match visual {
        Some(program) => String::from_str(program),
        None => match editor {
            Some(program) => String::from_str(program),
            None => String::from_str("vi"),
        },
    }
}

/// How the editor ended.
#[derive(Clone, Copy, Debug, PartialEq, Eq, Structural)]
pub enum EditorExit {
    /// It exited with this code.
    Exited(i32),
    /// A signal ended it.
    Signaled,
}

impl EditorExit {
    /// The editor exited with code zero.
    pub open spec fn spec_succeeded(self) -> bool {
        self == EditorExit::Exited(0)
    }

    /// Whether the editor exited with code zero. Only then is what it wrote
    /// read.
    pub fn succeeded(self) -> (b: bool)
        ensures
            b == self.spec_succeeded(),
    {
        match self {
            EditorExit::Exited(code) => code == 0,
            EditorExit::Signaled => false,
        }
    }
}

/// The decimal digits of `n`, after a minus sign if it is negative.
pub open spec fn spec_signed_decimal(n: int) -> Seq<char> {
    if n < 0 {
        "-"@ + spec_decimal((-n) as nat)
    } else {
        spec_decimal(n as nat)
    }
}

/// The decimal digits of `n`, after a minus sign if it is negative.
pub fn signed_decimal_string(n: i32) -> (s: String)
    ensures
        s@ == spec_signed_decimal(n as int),
{
    if n < 0 {
        let magnitude: u64 = (-(n as i64)) as u64;
        let mut s = String::from_str("-");
        let digits = decimal_string(magnitude);
        s.append(digits.as_str());
        s
    } else {
        decimal_string(n as u64)
    }
}

/// The message for an editor that did not exit with code zero.
pub open spec fn spec_exit_description(exit: EditorExit) -> Seq<char> {
    match exit {
        EditorExit::Exited(code) => "Editor exited with code '"@ + spec_signed_decimal(code as int)
            + "'."@,
        EditorExit::Signaled => "Editor terminated by signal."@,
    }
}

/// Why no changeset came out of an editor session.
#[derive(Clone, Debug)]
pub enum SourceError {
    /// The editor did not exit with code zero; what it wrote was not read.
    EditorAborted(EditorExit),
    /// What the author wrote is not a changeset description.
    Parse(ParseError),
}

/// A `SourceError` as plain values.
pub enum SourceErrorView {
    EditorAborted(EditorExit),
    Parse(ParseErrorView),
}

impl View for SourceError {
    type V = SourceErrorView;

    open spec fn view(&self) -> SourceErrorView {
        match *self {
            SourceError::EditorAborted(exit) => SourceErrorView::EditorAborted(exit),
            SourceError::Parse(e) => SourceErrorView::Parse(e@),
        }
    }
}

/// The message for a failed editor session.
pub open spec fn spec_source_description(e: SourceErrorView) -> Seq<char> {
    match e {
        SourceErrorView::EditorAborted(exit) => spec_exit_description(exit),
        SourceErrorView::Parse(e) => spec_description(e),
    }
}

impl SourceError {
    /// The message for this failure: how the editor ended, or what is
    /// wrong with the description.
    pub fn description(&self) -> (s: String)
        ensures
            s@ == spec_source_description(self@),
    {
        match self {
            SourceError::EditorAborted(exit) => match exit {
                EditorExit::Exited(code) => {
                    let mut s = String::from_str("Editor exited with code '");
                    let digits = signed_decimal_string(*code);
                    s.append(digits.as_str());
                    s.append("'.");
                    s
                },
                EditorExit::Signaled => String::from_str("Editor terminated by signal."),
            },
            SourceError::Parse(e) => e.description(),
        }
    }
}

} // verus!
