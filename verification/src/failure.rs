//! Why a run fails, and the message that is shown for it.
use vstd::prelude::*;
use vstd::string::StringExecFns;

verus! {

/// Why a run failed.
#[derive(Clone, Copy, Debug, PartialEq, Eq, Structural)]
pub enum PipelineErrorKind {
    /// The environment does not name the user.
    MissingUser,
    /// The working directory is in no repository.
    NotARepository,
    /// The repository has no remote `origin`.
    NoOriginRemote,
    /// The address of the remote cannot be read.
    NoRemoteUrl,
    /// The address of the remote does not name a repository on the forge.
    UnrecognizedRemoteUrl,
    /// The environment holds no access token for the forge.
    MissingToken,
    /// `HEAD` does not resolve to a commit.
    NoHead,
    /// The commit at `HEAD` has no parent.
    NoParent,
    /// The commit at `HEAD` has more than one parent.
    MultipleParents,
    /// The editor could not be run, or what it wrote could not be read.
    EditorFailed,
    /// The editor did not exit with code zero.
    EditorAborted,
    /// What the author wrote is not a changeset description.
    InvalidChangeset,
    /// A branch of the name to be created exists already.
    BranchAlreadyExists,
    /// A branch could not be created, for another reason.
    BranchNotCreated,
    /// A branch could not be pushed; it stays in the local repository.
    PushFailed,
    /// The forge did not open the pull request.
    PullRequestRejected,
    /// The event is not an answer to what was asked for.
    UnexpectedEvent,
}

/// A failed run: why it failed, the value that the failure is about, and
/// what the step that failed reported.
#[derive(Clone, Debug)]
pub struct PipelineError {
    pub kind: PipelineErrorKind,
    /// The address, commit or branch that the failure is about; empty where
    /// there is none.
    pub subject: String,
    /// What the step that failed reported; empty where it reported nothing.
    pub detail: String,
}

/// A `PipelineError` as plain values.
pub struct PipelineErrorView {
    pub kind: PipelineErrorKind,
    pub subject: Seq<char>,
    pub detail: Seq<char>,
}

impl View for PipelineError {
    type V = PipelineErrorView;

    open spec fn view(&self) -> PipelineErrorView {
        PipelineErrorView { kind: self.kind, subject: self.subject@, detail: self.detail@ }
    }
}

/// The sentence that says what failed.
pub open spec fn spec_pipeline_headline(kind: PipelineErrorKind) -> Seq<char> {
    match kind {
        PipelineErrorKind::MissingUser => "No USER environment variable found, cannot get current user's username."@,
        PipelineErrorKind::NotARepository => "Not a git repository (or any of the parent directories)."@,
        PipelineErrorKind::NoOriginRemote => "Could not find remote origin."@,
        PipelineErrorKind::NoRemoteUrl => "Could not read remote origin url."@,
        PipelineErrorKind::UnrecognizedRemoteUrl => "Could not extract Github repo from origin url."@,
        PipelineErrorKind::MissingToken => "No GITHUB_TOKEN environment variable found."@,
        PipelineErrorKind::NoHead => "Could not get commit referenced by HEAD."@,
        PipelineErrorKind::NoParent => "HEAD commit has no parents."@,
        PipelineErrorKind::MultipleParents => "HEAD commit has more than one parent."@,
        PipelineErrorKind::EditorFailed => "Could not run editor."@,
        PipelineErrorKind::EditorAborted => "Editor did not finish."@,
        PipelineErrorKind::InvalidChangeset => "Could not get changeset information from editor."@,
        PipelineErrorKind::BranchAlreadyExists => "Branch already exists."@,
        PipelineErrorKind::BranchNotCreated => "Could not create branch."@,
        PipelineErrorKind::PushFailed => "Couldn't push branch; it remains in the local repository."@,
        PipelineErrorKind::PullRequestRejected => "Could not create pull request."@,
        PipelineErrorKind::UnexpectedEvent => "Unexpected event."@,
    }
}

/// The message for a failed run: what failed, then the value that the
/// failure is about between quotes, if there is one, then on a line of its
/// own what the failed step reported, if it reported anything.
pub open spec fn spec_pipeline_description(e: PipelineErrorView) -> Seq<char> {
    spec_pipeline_headline(e.kind) + (if e.subject.len() > 0 {
        " '"@ + e.subject + "'"@
    } else {
        Seq::empty()
    }) + (if e.detail.len() > 0 {
        "\nCaused by: "@ + e.detail
    } else {
        Seq::empty()
    })
}

impl PipelineError {
    /// The sentence that says what failed.
    pub fn headline(&self) -> (s: &'static str)
        ensures
            s@ == spec_pipeline_headline(self.kind),
    {
        match self.kind {
            PipelineErrorKind::MissingUser => "No USER environment variable found, cannot get current user's username.",
            PipelineErrorKind::NotARepository => "Not a git repository (or any of the parent directories).",
            PipelineErrorKind::NoOriginRemote => "Could not find remote origin.",
            PipelineErrorKind::NoRemoteUrl => "Could not read remote origin url.",
            PipelineErrorKind::UnrecognizedRemoteUrl => "Could not extract Github repo from origin url.",
            PipelineErrorKind::MissingToken => "No GITHUB_TOKEN environment variable found.",
            PipelineErrorKind::NoHead => "Could not get commit referenced by HEAD.",
            PipelineErrorKind::NoParent => "HEAD commit has no parents.",
            PipelineErrorKind::MultipleParents => "HEAD commit has more than one parent.",
            PipelineErrorKind::EditorFailed => "Could not run editor.",
            PipelineErrorKind::EditorAborted => "Editor did not finish.",
            PipelineErrorKind::InvalidChangeset => "Could not get changeset information from editor.",
            PipelineErrorKind::BranchAlreadyExists => "Branch already exists.",
            PipelineErrorKind::BranchNotCreated => "Could not create branch.",
            PipelineErrorKind::PushFailed => "Couldn't push branch; it remains in the local repository.",
            PipelineErrorKind::PullRequestRejected => "Could not create pull request.",
            PipelineErrorKind::UnexpectedEvent => "Unexpected event.",
        }
    }

    /// The message for this failure: what failed, the value that the
    /// failure is about, and what the failed step reported.
    pub fn description(&self) -> (s: String)
        ensures
            s@ == spec_pipeline_description(self@),
    {
        let mut s = String::from_str(self.headline());
        let ghost headline = s@;
        if !self.subject.as_str().is_empty() {
            s.append(" '");
            s.append(self.subject.as_str());
            s.append("'");
            assert(s@ =~= headline + (" '"@ + self.subject@ + "'"@));
        } else {
            assert(s@ =~= headline + Seq::<char>::empty());
        }
        let ghost front = s@;
        if !self.detail.as_str().is_empty() {
            s.append("\nCaused by: ");
            s.append(self.detail.as_str());
            assert(s@ =~= front + ("\nCaused by: "@ + self.detail@));
        } else {
            assert(s@ =~= front + Seq::<char>::empty());
        }
        s
    }
}

} // verus!
