//! The changeset description: free text that an author edits, read into a
//! title, a body, an optional branch name, an optional pull request that the
//! change amends, and the pull requests that it depends on.
use crate::editor::{EditorExit, SourceError, SourceErrorView};
use crate::errors::{Field, ParseError, ParseErrorKind, ParseErrorView};
use crate::pull_request::{
    canonical_url, resolve, resolve_list_chars, spec_canonical_url, spec_resolve,
    spec_resolve_list,
};
use crate::text::{
    chars_of, lemma_lines_of_join, lines, spans_fit, spans_of, spec_join, spec_lines,
    spec_opt_view, spec_trim, starts_with_str, trim_span, Span,
};
use vstd::prelude::*;
use vstd::slice::slice_subrange;
use vstd::string::{StrSliceExecFns, StringExecFns};

verus! {

/// A changeset description that has been read.
#[derive(Clone, Debug)]
pub struct Changeset {
    /// The first line of free text. Never empty in a changeset that was read
    /// from a description.
    pub title: String,
    /// The lines of free text after the title, joined by line feeds; absent
    /// if there are none.
    pub message: Option<String>,
    /// The branch name that the description asks for, if it asks for one.
    pub branch: Option<String>,
    /// The canonical address of the existing pull request that this change
    /// amends, if the description names one.
    pub pr: Option<String>,
    /// The numbers of the pull requests that this change depends on, in the
    /// order in which the description lists them; a number may occur twice.
    pub dependencies: Vec<u64>,
}

/// A `Changeset` as plain values.
pub struct ChangesetView {
    pub title: Seq<char>,
    pub message: Option<Seq<char>>,
    pub branch: Option<Seq<char>>,
    pub pr: Option<Seq<char>>,
    pub dependencies: Seq<u64>,
}

impl View for Changeset {
    type V = ChangesetView;

    open spec fn view(&self) -> ChangesetView {
        ChangesetView {
            title: self.title@,
            message: spec_opt_view(self.message),
            branch: spec_opt_view(self.branch),
            pr: spec_opt_view(self.pr),
            dependencies: self.dependencies@,
        }
    }
}

/// What a line of a changeset description is.
#[derive(Clone, Copy, Debug, PartialEq, Eq, Structural)]
pub enum LineKind {
    /// The line is empty.
    Blank,
    /// The line begins with `#`.
    Comment,
    /// The line begins with the label of a field.
    Labeled(Field),
    /// Anything else: free text.
    Text,
}

/// What the line `line` is. An empty line is blank whatever surrounds it, a
/// line that begins with `#` is a comment, a line that begins with a
/// field's label belongs to that field, and every other line is free text.
pub open spec fn spec_classify(line: Seq<char>) -> LineKind {
    if line.len() == 0 {
        LineKind::Blank
    } else if line[0] == '#' {
        LineKind::Comment
    } else if Field::BranchName.spec_label().is_prefix_of(line) {
        LineKind::Labeled(Field::BranchName)
    } else if Field::PullRequest.spec_label().is_prefix_of(line) {
        LineKind::Labeled(Field::PullRequest)
    } else if Field::DependsOn.spec_label().is_prefix_of(line) {
        LineKind::Labeled(Field::DependsOn)
    } else {
        LineKind::Text
    }
}

/// What stands after the label in a line of the field `field`.
pub open spec fn spec_field_value(line: Seq<char>, field: Field) -> Seq<char> {
    line.skip(field.spec_label().len() as int)
}

/// What has been gathered from the lines read so far.
pub struct Draft {
    pub title: Option<Seq<char>>,
    pub body: Seq<Seq<char>>,
    pub branch: Option<Seq<char>>,
    pub pr: Option<u64>,
    pub dependencies: Seq<u64>,
}

/// Nothing gathered yet.
pub open spec fn spec_empty_draft() -> Draft {
    Draft {
        title: None,
        body: Seq::empty(),
        branch: None,
        pr: None,
        dependencies: Seq::empty(),
    }
}

/// A line that cannot be accepted, the field it belongs to, and why.
pub struct Rejection {
    pub kind: ParseErrorKind,
    pub field: Field,
    pub line: Seq<char>,
}

/// The draft after one more line, or why the line is rejected.
///
/// Blank lines and comments change nothing. A `Branch name:` line sets the
/// branch to the trimmed rest of the line, once. A `Pull request:` line
/// sets the amended pull request, once, and its value must list exactly one
/// reference. A `Depends on:` line appends the pull requests of its
/// comma-separated references. The first line of free text is the title,
/// every later one is added to the body.
pub open spec fn spec_read_line(draft: Draft, line: Seq<char>, owner: Seq<char>, repo: Seq<char>) -> Result<
    Draft,
    Rejection,
> {
    match spec_classify(line) {
        LineKind::Blank => Ok(draft),
        LineKind::Comment => Ok(draft),
        LineKind::Labeled(Field::BranchName) => if draft.branch is Some {
            Err(Rejection { kind: ParseErrorKind::DuplicateField, field: Field::BranchName, line })
        } else {
            Ok(
                Draft {
                    branch: Some(spec_trim(spec_field_value(line, Field::BranchName))),
                    ..draft
                },
            )
        },
        LineKind::Labeled(Field::PullRequest) => if draft.pr is Some {
            Err(Rejection { kind: ParseErrorKind::DuplicateField, field: Field::PullRequest, line })
        } else {
            match spec_resolve_list(spec_field_value(line, Field::PullRequest), owner, repo) {
                Err(e) => Err(Rejection { kind: e.kind, field: Field::PullRequest, line }),
                Ok(ids) => if ids.len() == 1 {
                    Ok(Draft { pr: Some(ids[0]), ..draft })
                } else {
                    Err(
                        Rejection {
                            kind: ParseErrorKind::MultipleReferences,
                            field: Field::PullRequest,
                            line,
                        },
                    )
                },
            }
        },
        LineKind::Labeled(Field::DependsOn) => match spec_resolve_list(
            spec_field_value(line, Field::DependsOn),
            owner,
            repo,
        ) {
            Err(e) => Err(Rejection { kind: e.kind, field: Field::DependsOn, line }),
            Ok(ids) => Ok(Draft { dependencies: draft.dependencies + ids, ..draft }),
        },
        LineKind::Text => match draft.title {
            None => Ok(Draft { title: Some(line), ..draft }),
            Some(_) => Ok(Draft { body: draft.body.push(line), ..draft }),
        },
    }
}

/// The draft after all of `lines`, read in order; or the first line that is
/// rejected. Nothing is read after a rejected line.
pub open spec fn spec_read(lines: Seq<Seq<char>>, owner: Seq<char>, repo: Seq<char>) -> Result<
    Draft,
    Rejection,
>
    decreases lines.len(),
{
    if lines.len() == 0 {
        Ok(spec_empty_draft())
    } else {
        match spec_read(lines.drop_last(), owner, repo) {
            Err(e) => Err(e),
            Ok(draft) => spec_read_line(draft, lines.last(), owner, repo),
        }
    }
}

/// The changeset that a finished draft of `text` gives. A draft without a
/// title gives none.
pub open spec fn spec_finish(draft: Draft, text: Seq<char>, owner: Seq<char>, repo: Seq<char>) -> Result<
    ChangesetView,
    ParseErrorView,
> {
    match draft.title {
        None => Err(
            ParseErrorView {
                kind: ParseErrorKind::MissingTitle,
                field: None,
                line: Seq::empty(),
                text,
            },
        ),
        Some(title) => Ok(
            ChangesetView {
                title,
                message: if draft.body.len() == 0 {
                    None
                } else {
                    Some(spec_join(draft.body, "\n"@))
                },
                branch: draft.branch,
                pr: match draft.pr {
                    Some(n) => Some(spec_canonical_url(owner, repo, n as nat)),
                    None => None,
                },
                dependencies: draft.dependencies,
            },
        ),
    }
}

/// The changeset that the description `text` stands for in the repository
/// `owner`/`repo`, or why it stands for none.
pub open spec fn spec_parse(text: Seq<char>, owner: Seq<char>, repo: Seq<char>) -> Result<
    ChangesetView,
    ParseErrorView,
> {
    match spec_read(spec_lines(text), owner, repo) {
        Err(e) => Err(
            ParseErrorView { kind: e.kind, field: Some(e.field), line: e.line, text },
        ),
        Ok(draft) => spec_finish(draft, text, owner, repo),
    }
}

/// The changeset that comes out of an editor session for the repository
/// `owner`/`repo`, in which the editor ended with `exit` and left `written`
/// behind. What an editor wrote that did not exit with code zero is not
/// looked at.
pub open spec fn spec_from_editor(
    exit: EditorExit,
    written: Seq<char>,
    owner: Seq<char>,
    repo: Seq<char>,
) -> Result<ChangesetView, SourceErrorView> {
    if !exit.spec_succeeded() {
        Err(SourceErrorView::EditorAborted(exit))
    } else {
        match spec_parse(written, owner, repo) {
            Ok(changeset) => Ok(changeset),
            Err(e) => Err(SourceErrorView::Parse(e)),
        }
    }
}

/// A rejection among the first lines is the rejection of the whole.
pub proof fn lemma_read_fails(lines: Seq<Seq<char>>, owner: Seq<char>, repo: Seq<char>, k: int)
    requires
        0 <= k <= lines.len(),
        spec_read(lines.take(k), owner, repo) is Err,
    ensures
        spec_read(lines, owner, repo) == spec_read(lines.take(k), owner, repo),
    decreases lines.len() - k,
{
    if k == lines.len() {
        assert(lines.take(k) =~= lines);
    } else {
        assert(lines.take(k + 1).drop_last() =~= lines.take(k));
        lemma_read_fails(lines, owner, repo, k + 1);
    }
}

/// A title that has been read is a line of free text, so it is not empty.
pub proof fn lemma_title_not_empty(lines: Seq<Seq<char>>, owner: Seq<char>, repo: Seq<char>)
    ensures
        spec_read(lines, owner, repo) matches Ok(draft) ==> (draft.title matches Some(t)
            ==> t.len() > 0),
    decreases lines.len(),
{
    if lines.len() > 0 {
        lemma_title_not_empty(lines.drop_last(), owner, repo);
    }
}

/// Whether a line is passed over: it is empty or a comment.
pub open spec fn spec_ignored(line: Seq<char>) -> bool {
    line.len() == 0 || line[0] == '#'
}

/// Whether a line is free text.
pub open spec fn spec_is_text(line: Seq<char>) -> bool {
    spec_classify(line) == LineKind::Text
}

/// Empty lines and comments leave no trace, wherever they stand: taking
/// line `k` away from `lines`, if it is one of them, changes nothing in
/// what is read.
pub proof fn lemma_ignored_line(lines: Seq<Seq<char>>, owner: Seq<char>, repo: Seq<char>, k: int)
    requires
        0 <= k < lines.len(),
        spec_ignored(lines[k]),
    ensures
        spec_read(lines, owner, repo) == spec_read(lines.remove(k), owner, repo),
    decreases lines.len(),
{
    if k == lines.len() - 1 {
        assert(lines.remove(k) =~= lines.drop_last());
    } else {
        lemma_ignored_line(lines.drop_last(), owner, repo, k);
        assert(lines.remove(k).drop_last() =~= lines.drop_last().remove(k));
        assert(lines.remove(k).last() == lines.last());
    }
}

/// Lines that are all empty or comments give the empty draft.
pub proof fn lemma_read_ignored(lines: Seq<Seq<char>>, owner: Seq<char>, repo: Seq<char>)
    requires
        forall|i: int| 0 <= i < lines.len() ==> spec_ignored(#[trigger] lines[i]),
    ensures
        spec_read(lines, owner, repo) == Ok::<Draft, Rejection>(spec_empty_draft()),
    decreases lines.len(),
{
    if lines.len() > 0 {
        let front = lines.drop_last();
        assert forall|i: int| 0 <= i < front.len() implies spec_ignored(#[trigger] front[i]) by {
            assert(front[i] == lines[i]);
        }
        lemma_read_ignored(front, owner, repo);
        assert(spec_ignored(lines[lines.len() - 1]));
    }
}

/// A description that holds nothing but empty lines and comments has no
/// title: reading it fails with `MissingTitle`.
pub proof fn lemma_nothing_but_blank_and_comments(
    text: Seq<char>,
    owner: Seq<char>,
    repo: Seq<char>,
)
    requires
        forall|i: int|
            0 <= i < spec_lines(text).len() ==> spec_ignored(#[trigger] spec_lines(text)[i]),
    ensures
        spec_parse(text, owner, repo) == Err::<ChangesetView, ParseErrorView>(
            ParseErrorView {
                kind: ParseErrorKind::MissingTitle,
                field: None,
                line: Seq::empty(),
                text,
            },
        ),
{
    lemma_read_ignored(spec_lines(text), owner, repo);
}

/// Lines of free text, at least one, give a draft with the first as title
/// and the others as body.
pub proof fn lemma_read_text(lines: Seq<Seq<char>>, owner: Seq<char>, repo: Seq<char>)
    requires
        lines.len() >= 1,
        forall|i: int| 0 <= i < lines.len() ==> spec_is_text(#[trigger] lines[i]),
    ensures
        spec_read(lines, owner, repo) == Ok::<Draft, Rejection>(
            Draft { title: Some(lines[0]), body: lines.skip(1), ..spec_empty_draft() },
        ),
    decreases lines.len(),
{
    let front = lines.drop_last();
    assert(spec_is_text(lines[lines.len() - 1]));
    if lines.len() == 1 {
        assert(front =~= Seq::empty());
        assert(lines.skip(1) =~= Seq::empty());
    } else {
        assert forall|i: int| 0 <= i < front.len() implies spec_is_text(#[trigger] front[i]) by {
            assert(front[i] == lines[i]);
        }
        lemma_read_text(front, owner, repo);
        assert(front.skip(1).push(lines.last()) =~= lines.skip(1));
    }
}

/// A description whose lines are all free text has the first line as its
/// title and the others, joined by line feeds in their order, as its
/// message; with no other line there is no message. It names no branch, no
/// pull request and no dependencies.
pub proof fn lemma_free_text(text: Seq<char>, owner: Seq<char>, repo: Seq<char>)
    requires
        spec_lines(text).len() >= 1,
        forall|i: int|
            0 <= i < spec_lines(text).len() ==> spec_is_text(#[trigger] spec_lines(text)[i]),
    ensures
        spec_parse(text, owner, repo) == Ok::<ChangesetView, ParseErrorView>(
            ChangesetView {
                title: spec_lines(text)[0],
                message: if spec_lines(text).len() == 1 {
                    None
                } else {
                    Some(spec_join(spec_lines(text).skip(1), "\n"@))
                },
                branch: None,
                pr: None,
                dependencies: Seq::empty(),
            },
        ),
{
    lemma_read_text(spec_lines(text), owner, repo);
}

/// Lines of free text, at least one, none of which holds a line feed or
/// ends in a carriage return, written one under the other, make a
/// description with the first line as its title and the others, as they
/// stand, as its message.
pub proof fn lemma_free_text_joined(lines: Seq<Seq<char>>, owner: Seq<char>, repo: Seq<char>)
    requires
        lines.len() >= 1,
        forall|i: int| 0 <= i < lines.len() ==> spec_is_text(#[trigger] lines[i]),
        forall|i: int| 0 <= i < lines.len() ==> !(#[trigger] lines[i]).contains('\n'),
        forall|i: int| 0 <= i < lines.len() ==> (#[trigger] lines[i]).last() != '\r',
    ensures
        spec_parse(spec_join(lines, "\n"@), owner, repo) == Ok::<ChangesetView, ParseErrorView>(
            ChangesetView {
                title: lines[0],
                message: if lines.len() == 1 {
                    None
                } else {
                    Some(spec_join(lines.skip(1), "\n"@))
                },
                branch: None,
                pr: None,
                dependencies: Seq::empty(),
            },
        ),
{
    reveal_strlit("\n");
    assert("\n"@ =~= seq!['\n']);
    assert(spec_is_text(lines[lines.len() - 1]));
    lemma_lines_of_join(lines);
    lemma_free_text(spec_join(lines, "\n"@), owner, repo);
}

/// A description of one line of free text has that line as its title and
/// no message.
pub proof fn lemma_single_line(text: Seq<char>, owner: Seq<char>, repo: Seq<char>)
    requires
        spec_lines(text).len() == 1,
        spec_is_text(spec_lines(text)[0]),
    ensures
        spec_parse(text, owner, repo) == Ok::<ChangesetView, ParseErrorView>(
            ChangesetView {
                title: spec_lines(text)[0],
                message: None,
                branch: None,
                pr: None,
                dependencies: Seq::empty(),
            },
        ),
{
    lemma_free_text(text, owner, repo);
}

/// A description of three lines of free text has the first as its title
/// and the other two, joined by a line feed in their order, as its message.
pub proof fn lemma_title_and_two_lines(text: Seq<char>, owner: Seq<char>, repo: Seq<char>)
    requires
        spec_lines(text).len() == 3,
        spec_is_text(spec_lines(text)[0]),
        spec_is_text(spec_lines(text)[1]),
        spec_is_text(spec_lines(text)[2]),
    ensures
        spec_parse(text, owner, repo) == Ok::<ChangesetView, ParseErrorView>(
            ChangesetView {
                title: spec_lines(text)[0],
                message: Some(spec_lines(text)[1] + "\n"@ + spec_lines(text)[2]),
                branch: None,
                pr: None,
                dependencies: Seq::empty(),
            },
        ),
{
    lemma_free_text(text, owner, repo);
    let body = spec_lines(text).skip(1);
    assert(body.len() == 2);
    assert(body.drop_last().len() == 1);
    assert(spec_join(body.drop_last(), "\n"@) == body.drop_last()[0]);
    assert(spec_join(body, "\n"@) == spec_join(body.drop_last(), "\n"@) + "\n"@ + body.last());
}

/// Once a `Pull request:` line has been accepted, every draft that is read
/// later names a pull request.
pub proof fn lemma_pull_request_kept(
    lines: Seq<Seq<char>>,
    owner: Seq<char>,
    repo: Seq<char>,
    i: int,
    k: int,
)
    requires
        0 <= i < k <= lines.len(),
        spec_classify(lines[i]) == LineKind::Labeled(Field::PullRequest),
    ensures
        spec_read(lines.take(k), owner, repo) matches Ok(draft) ==> draft.pr is Some,
    decreases k,
{
    assert(lines.take(k).drop_last() =~= lines.take(k - 1));
    assert(lines.take(k).last() == lines[k - 1]);
    if k - 1 > i {
        lemma_pull_request_kept(lines, owner, repo, i, k - 1);
    }
}

/// A description with two `Pull request:` lines is not accepted. Where
/// every line before the second of them is accepted, the failure is that
/// line, as a duplicate of the field.
pub proof fn lemma_second_pull_request(
    text: Seq<char>,
    owner: Seq<char>,
    repo: Seq<char>,
    i: int,
    j: int,
)
    requires
        0 <= i < j < spec_lines(text).len(),
        spec_classify(spec_lines(text)[i]) == LineKind::Labeled(Field::PullRequest),
        spec_classify(spec_lines(text)[j]) == LineKind::Labeled(Field::PullRequest),
    ensures
        spec_parse(text, owner, repo) is Err,
        spec_read(spec_lines(text).take(j), owner, repo) is Ok ==> spec_parse(text, owner, repo)
            == Err::<ChangesetView, ParseErrorView>(
            ParseErrorView {
                kind: ParseErrorKind::DuplicateField,
                field: Some(Field::PullRequest),
                line: spec_lines(text)[j],
                text,
            },
        ),
{
    let lines = spec_lines(text);
    lemma_pull_request_kept(lines, owner, repo, i, j);
    assert(lines.take(j + 1).drop_last() =~= lines.take(j));
    assert(lines.take(j + 1).last() == lines[j]);
    if spec_read(lines.take(j), owner, repo) is Err {
        lemma_read_fails(lines, owner, repo, j);
    } else {
        lemma_read_fails(lines, owner, repo, j + 1);
    }
}

/// What a line is.
pub fn classify(line: &[char]) -> (kind: LineKind)
    ensures
        kind == spec_classify(line@),
{
    if line.len() == 0 {
        LineKind::Blank
    } else if line[0] == '#' {
        LineKind::Comment
    } else if starts_with_str(line, Field::BranchName.label()) {
        LineKind::Labeled(Field::BranchName)
    } else if starts_with_str(line, Field::PullRequest.label()) {
        LineKind::Labeled(Field::PullRequest)
    } else if starts_with_str(line, Field::DependsOn.label()) {
        LineKind::Labeled(Field::DependsOn)
    } else {
        LineKind::Text
    }
}

/// What has been gathered from the lines read so far, as ranges of the
/// text.
struct Progress {
    title: Option<Span>,
    body: Vec<Span>,
    branch: Option<Span>,
    pr: Option<u64>,
    dependencies: Vec<u64>,
}

/// The characters that an optional range covers.
spec fn spec_opt_of(span: Option<Span>, text: Seq<char>) -> Option<Seq<char>> {
    match span {
        Some(span) => Some(span.of(text)),
        None => None,
    }
}

impl Progress {
    /// Every range lies inside a text of length `len`.
    spec fn fits(&self, len: nat) -> bool {
        &&& self.title matches Some(t) ==> t.fits(len)
        &&& self.branch matches Some(b) ==> b.fits(len)
        &&& spans_fit(self.body@, len)
    }

    /// The draft that the ranges stand for.
    spec fn draft(&self, text: Seq<char>) -> Draft {
        Draft {
            title: spec_opt_of(self.title, text),
            body: spans_of(self.body@, text),
            branch: spec_opt_of(self.branch, text),
            pr: self.pr,
            dependencies: self.dependencies@,
        }
    }

    fn new() -> (p: Progress)
        ensures
            p.fits(0),
            forall|text: Seq<char>| #[trigger] p.draft(text) == spec_empty_draft(),
    {
        let p = Progress {
            title: None,
            body: Vec::new(),
            branch: None,
            pr: None,
            dependencies: Vec::new(),
        };
        assert forall|text: Seq<char>| #[trigger] p.draft(text) == spec_empty_draft() by {
            assert(spans_of(p.body@, text) =~= Seq::empty());
        }
        p
    }

    /// Reads the line at `span` of `text`.
    fn read_line(&mut self, text: &[char], span: Span, owner: &[char], repo: &[char]) -> (r: Result<
        (),
        (ParseErrorKind, Field),
    >)
        requires
            span.fits(text@.len()),
            old(self).fits(text@.len()),
        ensures
            match spec_read_line(old(self).draft(text@), span.of(text@), owner@, repo@) {
                Ok(draft) => r is Ok && final(self).fits(text@.len()) && final(self).draft(text@)
                    == draft,
                Err(e) => r == Err::<(), (ParseErrorKind, Field)>((e.kind, e.field)) && e.line
                    == span.of(text@),
            },
    {
        let line = slice_subrange(text, span.start, span.end);
        match classify(line) {
            LineKind::Blank => Ok(()),
            LineKind::Comment => Ok(()),
            LineKind::Labeled(field) => {
                let skip = field.label().unicode_len();
                let value = slice_subrange(line, skip, line.len());
                assert(value@ =~= spec_field_value(line@, field));
                match field {
                    Field::BranchName => {
                        if self.branch.is_some() {
                            return Err((ParseErrorKind::DuplicateField, field));
                        }
                        let inner = trim_span(value);
                        let at = span.start + skip;
                        let branch = Span { start: at + inner.start, end: at + inner.end };
                        assert(branch.of(text@) =~= inner.of(value@));
                        self.branch = Some(branch);
                        Ok(())
                    },
                    Field::PullRequest => {
                        if self.pr.is_some() {
                            return Err((ParseErrorKind::DuplicateField, field));
                        }
                        match resolve_list_chars(value, owner, repo) {
                            Err((kind, _)) => Err((kind, field)),
                            Ok(ids) => {
                                if ids.len() == 1 {
                                    self.pr = Some(ids[0]);
                                    Ok(())
                                } else {
                                    Err((ParseErrorKind::MultipleReferences, field))
                                }
                            },
                        }
                    },
                    Field::DependsOn => {
                        match resolve_list_chars(value, owner, repo) {
                            Err((kind, _)) => Err((kind, field)),
                            Ok(ids) => {
                                let mut ids = ids;
                                self.dependencies.append(&mut ids);
                                Ok(())
                            },
                        }
                    },
                }
            },
            LineKind::Text => {
                if self.title.is_none() {
                    self.title = Some(span);
                } else {
                    let ghost before = self.body@;
                    self.body.push(span);
                    assert(spans_of(self.body@, text@) =~= spans_of(before, text@).push(
                        span.of(text@),
                    ));
                }
                Ok(())
            },
        }
    }
}

/// The characters of `text` in the range `span`, as a string of their own.
fn cut(text: &str, span: Span) -> (s: String)
    requires
        span.fits(text@.len()),
    ensures
        s@ == span.of(text@),
{
    String::from_str(text.substring_char(span.start, span.end))
}

/// The characters of `text` in an optional range.
fn cut_opt(text: &str, span: Option<Span>) -> (s: Option<String>)
    requires
        span matches Some(sp) ==> sp.fits(text@.len()),
    ensures
        spec_opt_view(s) == spec_opt_of(span, text@),
{
    match span {
        Some(span) => Some(cut(text, span)),
        None => None,
    }
}

/// The lines of `text` at `spans`, joined by line feeds.
fn join_lines(text: &str, spans: &Vec<Span>) -> (s: String)
    requires
        spans_fit(spans@, text@.len()),
    ensures
        s@ == spec_join(spans_of(spans@, text@), "\n"@),
{
    let ghost parts = spans_of(spans@, text@);
    let mut s = String::new();
    let mut i: usize = 0;
    assert(parts.take(0) =~= Seq::empty());
    while i < spans.len()
        invariant
            i <= spans@.len(),
            spans_fit(spans@, text@.len()),
            parts == spans_of(spans@, text@),
            s@ == spec_join(parts.take(i as int), "\n"@),
        decreases spans.len() - i,
    {
        let span = spans[i];
        assert(span.fits(text@.len()));
        proof {
            assert(parts.take(i + 1).drop_last() =~= parts.take(i as int));
            assert(parts.take(i + 1).last() == span.of(text@));
            if i == 0 {
                assert(s@ + span.of(text@) =~= span.of(text@));
            }
        }
        if i > 0 {
            s.append("\n");
        }
        s.append(text.substring_char(span.start, span.end));
        i += 1;
    }
    assert(parts.take(i as int) =~= parts);
    s
}

impl Changeset {
    /// The title is not empty.
    pub open spec fn well_formed(&self) -> bool {
        self.title@.len() > 0
    }

    /// The changeset that comes out of an editor session for the repository
    /// `github_owner`/`github_repo`.
    ///
    /// `exit` says how the editor ended and `written` is what it left in the
    /// file it was started on. If the editor did not exit with code zero the
    /// session fails with `EditorAborted` and `written` is not looked at.
    /// Else `written` is read as `new_from_string` reads it.
    pub fn new_from_editor(
        exit: EditorExit,
        written: &str,
        github_owner: &str,
        github_repo: &str,
    ) -> (r: Result<Changeset, SourceError>)
        ensures
            match spec_from_editor(exit, written@, github_owner@, github_repo@) {
                Ok(v) => r matches Ok(c) && c@ == v && c.well_formed(),
                Err(e) => r matches Err(err) && err@ == e,
            },
    {
        if !exit.succeeded() {
            return Err(SourceError::EditorAborted(exit));
        }
        match Changeset::new_from_string(written, github_owner, github_repo) {
            Ok(changeset) => Ok(changeset),
            Err(e) => Err(SourceError::Parse(e)),
        }
    }

    /// Reads the changeset description `string` for the repository
    /// `github_owner`/`github_repo`.
    ///
    /// The lines of `string` are read in order. Empty lines and lines that
    /// begin with `#` are passed over wherever they stand. The first line of
    /// free text is the title and the later ones, joined by line feeds, are
    /// the message. `Branch name:` and `Pull request:` may each stand once,
    /// `Depends on:` any number of times. Reading stops at the first line
    /// that is rejected; the error names the failure and the field and
    /// echoes that line and `string`. A description without a title fails
    /// with `MissingTitle`.
    pub fn new_from_string(string: &str, github_owner: &str, github_repo: &str) -> (r: Result<
        Changeset,
        ParseError,
    >)
        ensures
            match spec_parse(string@, github_owner@, github_repo@) {
                Ok(v) => r matches Ok(c) && c@ == v && c.well_formed(),
                Err(e) => r matches Err(err) && err@ == e,
            },
    {
        let text = chars_of(string);
        let owner = chars_of(github_owner);
        let repo = chars_of(github_repo);
        let spans = lines(text.as_slice());
        let ghost all = spec_lines(string@);
        let mut progress = Progress::new();
        let mut i: usize = 0;
        assert(all.take(0) =~= Seq::empty());
        while i < spans.len()
            invariant
                i <= spans@.len(),
                text@ == string@,
                owner@ == github_owner@,
                repo@ == github_repo@,
                all == spec_lines(string@),
                spans_fit(spans@, text@.len()),
                spans_of(spans@, text@) == all,
                progress.fits(text@.len()),
                spec_read(all.take(i as int), owner@, repo@) == Ok::<Draft, Rejection>(
                    progress.draft(text@),
                ),
            decreases spans.len() - i,
        {
            let span = spans[i];
            assert(span.fits(text@.len()));
            proof {
                assert(all.take(i + 1).drop_last() =~= all.take(i as int));
                assert(all.take(i + 1).last() == span.of(text@));
            }
            match progress.read_line(text.as_slice(), span, owner.as_slice(), repo.as_slice()) {
                Ok(()) => {},
                Err((kind, field)) => {
                    proof {
                        assert(spec_read(all.take(i + 1), owner@, repo@) == Err::<
                            Draft,
                            Rejection,
                        >(Rejection { kind, field, line: span.of(text@) }));
                        lemma_read_fails(all, owner@, repo@, i + 1);
                    }
                    return Err(
                        ParseError {
                            kind,
                            field: Some(field),
                            line: cut(string, span),
                            text: String::from_str(string),
                        },
                    );
                },
            }
            i += 1;
        }
        assert(all.take(i as int) =~= all);
        let title = match progress.title {
            Some(span) => cut(string, span),
            None => {
                return Err(
                    ParseError {
                        kind: ParseErrorKind::MissingTitle,
                        field: None,
                        line: String::new(),
                        text: String::from_str(string),
                    },
                );
            },
        };
        proof {
            lemma_title_not_empty(all, owner@, repo@);
        }
        let message = if progress.body.len() == 0 {
            None
        } else {
            Some(join_lines(string, &progress.body))
        };
        let branch = cut_opt(string, progress.branch);
        let pr = match progress.pr {
            Some(number) => Some(canonical_url(github_owner, github_repo, number)),
            None => None,
        };
        Ok(Changeset { title, message, branch, pr, dependencies: progress.dependencies })
    }

    /// The canonical address of the pull request of
    /// `github_owner`/`github_repo` that `string` refers to.
    ///
    /// `string` may be a decimal number, `#` and a decimal number, or the
    /// `http` or `https` address of a pull request of exactly this repository;
    /// whitespace around it is ignored. Anything else fails with `NoMatch`, a
    /// number that does not fit in 64 bits with `NumberOverflow`.
    pub fn parse_pull_request(string: &str, github_owner: &str, github_repo: &str) -> (r: Result<
        String,
        ParseError,
    >)
        ensures
            match spec_resolve(string@, github_owner@, github_repo@) {
                Ok(id) => r matches Ok(url) && url@ == spec_canonical_url(
                    github_owner@,
                    github_repo@,
                    id as nat,
                ),
                Err(kind) => r matches Err(e) && e@ == (ParseErrorView {
                    kind,
                    field: None,
                    line: string@,
                    text: string@,
                }),
            },
    {
        match resolve(string, github_owner, github_repo) {
            Ok(id) => Ok(canonical_url(github_owner, github_repo, id)),
            Err(e) => Err(e),
        }
    }
}

} // verus!
