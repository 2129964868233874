//! The run that turns the commit at `HEAD` into a stacked pull request.
//!
//! The run is a sequence of steps on the environment, the repository, the
//! remote and the forge. None of them is taken here. A `Pipeline` decides:
//! it is told what the last step brought, as an `Event`, and says what to do
//! next, as an `Action`. Whoever drives it takes the step and reports back.
//! No step is asked for before the one before it has succeeded, and the
//! first failure ends the run.
use crate::branches::{
    base_branch_name, head_branch_name, spec_base_branch_name, spec_head_branch_name,
};
use crate::changeset::{spec_from_editor, Changeset};
use crate::editor::{spec_source_description, EditorExit};
use crate::failure::{PipelineError, PipelineErrorKind, PipelineErrorView};
use crate::remote::{parse_remote, spec_parse_remote};
use crate::text::spec_opt_view;
use vstd::prelude::*;

verus! {

/// Where a run stands: what it is waiting for.
#[derive(Clone, Copy, Debug, PartialEq, Eq, Structural)]
pub enum Stage {
    /// Nothing has been asked for yet.
    Start,
    /// Waiting for the name of the user.
    ReadingUser,
    /// Waiting for the repository to be found.
    DiscoveringRepository,
    /// Waiting for the remote `origin` to be found.
    FindingOrigin,
    /// Waiting for the address of the remote.
    ReadingRemoteUrl,
    /// Waiting to hear whether there is an access token for the forge.
    ReadingToken,
    /// Waiting for the commit at `HEAD` and its parents.
    ResolvingHead,
    /// Waiting for the author to leave the editor.
    Editing,
    /// Waiting for the base branch to be created.
    CreatingBaseBranch,
    /// Waiting for the base branch to be pushed.
    PushingBaseBranch,
    /// Waiting for the head branch to be created.
    CreatingHeadBranch,
    /// Waiting for the head branch to be pushed.
    PushingHeadBranch,
    /// Waiting for the forge to open the pull request.
    OpeningPullRequest,
    /// The pull request is open.
    Done,
    /// The run has failed.
    Failed,
}

/// The commit at `HEAD`.
#[derive(Clone, Debug)]
pub struct HeadCommit {
    /// The id of the commit.
    pub id: String,
    /// The ids of its parents, in order.
    pub parents: Vec<String>,
}

/// A `HeadCommit` as plain values.
pub struct HeadCommitView {
    pub id: Seq<char>,
    pub parents: Seq<Seq<char>>,
}

impl View for HeadCommit {
    type V = HeadCommitView;

    open spec fn view(&self) -> HeadCommitView {
        HeadCommitView {
            id: self.id@,
            parents: Seq::new(self.parents@.len(), |i: int| self.parents@[i]@),
        }
    }
}

/// How the creation of a branch ended.
#[derive(Clone, Debug)]
pub enum BranchOutcome {
    /// The branch was created.
    Created,
    /// A branch of that name exists already.
    AlreadyExists,
    /// The branch was not created, for the reason given.
    Failed(String),
}

/// A `BranchOutcome` as plain values.
pub enum BranchOutcomeView {
    Created,
    AlreadyExists,
    Failed(Seq<char>),
}

impl View for BranchOutcome {
    type V = BranchOutcomeView;

    open spec fn view(&self) -> BranchOutcomeView {
        match *self {
            BranchOutcome::Created => BranchOutcomeView::Created,
            BranchOutcome::AlreadyExists => BranchOutcomeView::AlreadyExists,
            BranchOutcome::Failed(reason) => BranchOutcomeView::Failed(reason@),
        }
    }
}

/// What a step brought.
#[derive(Debug)]
pub enum Event {
    /// The run begins.
    Started,
    /// The value of `USER` in the environment, if it is set.
    User(Option<String>),
    /// The repository was found, or the reason why not.
    Repository(Result<(), String>),
    /// The remote `origin` was found, or the reason why not.
    Origin(Result<(), String>),
    /// The address of the remote, if it can be read.
    RemoteUrl(Option<String>),
    /// Whether the environment holds an access token for the forge.
    Token(bool),
    /// The commit at `HEAD`, or the reason why there is none.
    Head(Result<HeadCommit, String>),
    /// The editor ended with `exit` and left `written` behind.
    Edited { exit: EditorExit, written: String },
    /// The editor could not be run, or what it wrote could not be read, for
    /// the reason given.
    EditorFailed(String),
    /// How the creation of the branch ended.
    Branch(BranchOutcome),
    /// The branch was pushed, or the reason why not.
    Pushed(Result<(), String>),
    /// The number of the pull request that the forge opened, or the reason
    /// why it opened none.
    PullRequest(Result<u64, String>),
}

/// An `Event` as plain values.
pub enum EventView {
    Started,
    User(Option<Seq<char>>),
    Repository(Result<(), Seq<char>>),
    Origin(Result<(), Seq<char>>),
    RemoteUrl(Option<Seq<char>>),
    Token(bool),
    Head(Result<HeadCommitView, Seq<char>>),
    Edited { exit: EditorExit, written: Seq<char> },
    EditorFailed(Seq<char>),
    Branch(BranchOutcomeView),
    Pushed(Result<(), Seq<char>>),
    PullRequest(Result<u64, Seq<char>>),
}

/// A result as plain values: the error of a failed step is a message.
pub open spec fn spec_result_view<T>(r: Result<T, String>) -> Result<T, Seq<char>> {
    match r {
        Ok(value) => Ok(value),
        Err(reason) => Err(reason@),
    }
}

impl View for Event {
    type V = EventView;

    open spec fn view(&self) -> EventView {
        match *self {
            Event::Started => EventView::Started,
            Event::User(user) => EventView::User(spec_opt_view(user)),
            Event::Repository(found) => EventView::Repository(spec_result_view(found)),
            Event::Origin(found) => EventView::Origin(spec_result_view(found)),
            Event::RemoteUrl(url) => EventView::RemoteUrl(spec_opt_view(url)),
            Event::Token(present) => EventView::Token(present),
            Event::Head(head) => EventView::Head(
                match head {
                    Ok(commit) => Ok(commit@),
                    Err(reason) => Err(reason@),
                },
            ),
            Event::Edited { exit, written } => EventView::Edited { exit, written: written@ },
            Event::EditorFailed(reason) => EventView::EditorFailed(reason@),
            Event::Branch(outcome) => EventView::Branch(outcome@),
            Event::Pushed(pushed) => EventView::Pushed(spec_result_view(pushed)),
            Event::PullRequest(opened) => EventView::PullRequest(spec_result_view(opened)),
        }
    }
}

/// What to do next.
#[derive(Clone, Debug)]
pub enum Action {
    /// Read `USER` from the environment.
    ReadUser,
    /// Find the repository at or above the working directory.
    DiscoverRepository,
    /// Find the remote `origin`.
    FindOrigin,
    /// Read the address of the remote.
    ReadRemoteUrl,
    /// Look for the access token of the forge in the environment.
    ReadToken,
    /// Resolve `HEAD` to a commit and list its parents.
    ResolveHead,
    /// Let the author write the changeset description in an editor.
    EditChangeset,
    /// Create the branch `name` at the commit `target`. With `overwrite`
    /// unset an existing branch of that name is an error.
    CreateBranch { name: String, target: String, overwrite: bool },
    /// Push the branch to `origin`, with a fresh credential resolver.
    Push { branch: String },
    /// Open a pull request in the repository `owner`/`repo` on the forge,
    /// from the branch `head` into the branch `base`.
    CreatePullRequest {
        owner: String,
        repo: String,
        title: String,
        body: Option<String>,
        head: String,
        base: String,
    },
    /// The run is over: the pull request with this number is open.
    Finish { pull_request: u64 },
    /// The run is over: it failed.
    Fail(PipelineError),
}

/// An `Action` as plain values.
pub enum ActionView {
    ReadUser,
    DiscoverRepository,
    FindOrigin,
    ReadRemoteUrl,
    ReadToken,
    ResolveHead,
    EditChangeset,
    CreateBranch { name: Seq<char>, target: Seq<char>, overwrite: bool },
    Push { branch: Seq<char> },
    CreatePullRequest {
        owner: Seq<char>,
        repo: Seq<char>,
        title: Seq<char>,
        body: Option<Seq<char>>,
        head: Seq<char>,
        base: Seq<char>,
    },
    Finish { pull_request: u64 },
    Fail(PipelineErrorView),
}

impl View for Action {
    type V = ActionView;

    open spec fn view(&self) -> ActionView {
        match *self {
            Action::ReadUser => ActionView::ReadUser,
            Action::DiscoverRepository => ActionView::DiscoverRepository,
            Action::FindOrigin => ActionView::FindOrigin,
            Action::ReadRemoteUrl => ActionView::ReadRemoteUrl,
            Action::ReadToken => ActionView::ReadToken,
            Action::ResolveHead => ActionView::ResolveHead,
            Action::EditChangeset => ActionView::EditChangeset,
            Action::CreateBranch { name, target, overwrite } => ActionView::CreateBranch {
                name: name@,
                target: target@,
                overwrite,
            },
            Action::Push { branch } => ActionView::Push { branch: branch@ },
            Action::CreatePullRequest {
                owner,
                repo,
                title,
                body,
                head,
                base,
            } => ActionView::CreatePullRequest {
                owner: owner@,
                repo: repo@,
                title: title@,
                body: spec_opt_view(body),
                head: head@,
                base: base@,
            },
            Action::Finish { pull_request } => ActionView::Finish { pull_request },
            Action::Fail(error) => ActionView::Fail(error@),
        }
    }
}

/// The state of a run as plain values: where it stands and what it has
/// learned so far. What has not been learned yet is empty.
pub struct PipelineView {
    pub stage: Stage,
    /// The name of the user.
    pub user: Seq<char>,
    /// The owner of the repository on the forge.
    pub owner: Seq<char>,
    /// The name of the repository on the forge.
    pub repo: Seq<char>,
    /// The id of the commit at `HEAD`.
    pub head: Seq<char>,
    /// The id of its parent.
    pub parent: Seq<char>,
    /// The title of the changeset.
    pub title: Seq<char>,
    /// The message of the changeset.
    pub body: Option<Seq<char>>,
    /// The branch name that the changeset asks for, if it asks for one. It
    /// is kept for the record: the branches of a run are named after the
    /// user and the commit, whatever the changeset asks for.
    pub requested_branch: Option<Seq<char>>,
}

/// A state and the action that goes with entering it.
pub struct Transition {
    pub next: PipelineView,
    pub action: ActionView,
}

/// The run goes on to `stage` and asks for `action`.
pub open spec fn spec_advance(p: PipelineView, stage: Stage, action: ActionView) -> Transition {
    Transition { next: PipelineView { stage, ..p }, action }
}

/// The run fails.
pub open spec fn spec_fail(
    p: PipelineView,
    kind: PipelineErrorKind,
    subject: Seq<char>,
    detail: Seq<char>,
) -> Transition {
    Transition {
        next: PipelineView { stage: Stage::Failed, ..p },
        action: ActionView::Fail(PipelineErrorView { kind, subject, detail }),
    }
}

/// The run fails because the event answers nothing that was asked for.
pub open spec fn spec_unexpected(p: PipelineView) -> Transition {
    spec_fail(p, PipelineErrorKind::UnexpectedEvent, Seq::empty(), Seq::empty())
}

/// The run is over and stays as it is; the event is answered with a
/// failure.
pub open spec fn spec_refuse(p: PipelineView) -> Transition {
    Transition {
        next: p,
        action: ActionView::Fail(
            PipelineErrorView {
                kind: PipelineErrorKind::UnexpectedEvent,
                subject: Seq::empty(),
                detail: Seq::empty(),
            },
        ),
    }
}

/// The action that creates the base branch of the run, at the parent.
pub open spec fn spec_create_base(p: PipelineView) -> ActionView {
    ActionView::CreateBranch {
        name: spec_base_branch_name(p.user, p.head),
        target: p.parent,
        overwrite: false,
    }
}

/// The action that creates the head branch of the run, at the commit.
pub open spec fn spec_create_head(p: PipelineView) -> ActionView {
    ActionView::CreateBranch {
        name: spec_head_branch_name(p.user, p.head),
        target: p.head,
        overwrite: false,
    }
}

/// The action that opens the pull request of the run.
pub open spec fn spec_open_pull_request(p: PipelineView) -> ActionView {
    ActionView::CreatePullRequest {
        owner: p.owner,
        repo: p.repo,
        title: p.title,
        body: p.body,
        head: spec_head_branch_name(p.user, p.head),
        base: spec_base_branch_name(p.user, p.head),
    }
}

/// What a run in the state `p` does when it is told `e`: the state it goes
/// to and the action it asks for.
///
/// In each stage one kind of event is the answer to what was asked for. If
/// it reports success the run goes on to the next stage; if it reports
/// failure the run fails with the error of that stage. Any other event
/// fails the run as unexpected, and so does any event after the run is over.
pub open spec fn spec_step(p: PipelineView, e: EventView) -> Transition {
    match p.stage {
        Stage::Start => match e {
            EventView::Started => spec_advance(p, Stage::ReadingUser, ActionView::ReadUser),
            _ => spec_unexpected(p),
        },
        Stage::ReadingUser => match e {
            EventView::User(Some(user)) => spec_advance(
                PipelineView { user, ..p },
                Stage::DiscoveringRepository,
                ActionView::DiscoverRepository,
            ),
            EventView::User(None) => spec_fail(
                p,
                PipelineErrorKind::MissingUser,
                Seq::empty(),
                Seq::empty(),
            ),
            _ => spec_unexpected(p),
        },
        Stage::DiscoveringRepository => match e {
            EventView::Repository(Ok(())) => spec_advance(
                p,
                Stage::FindingOrigin,
                ActionView::FindOrigin,
            ),
            EventView::Repository(Err(reason)) => spec_fail(
                p,
                PipelineErrorKind::NotARepository,
                Seq::empty(),
                reason,
            ),
            _ => spec_unexpected(p),
        },
        Stage::FindingOrigin => match e {
            EventView::Origin(Ok(())) => spec_advance(
                p,
                Stage::ReadingRemoteUrl,
                ActionView::ReadRemoteUrl,
            ),
            EventView::Origin(Err(reason)) => spec_fail(
                p,
                PipelineErrorKind::NoOriginRemote,
                Seq::empty(),
                reason,
            ),
            _ => spec_unexpected(p),
        },
        Stage::ReadingRemoteUrl => match e {
            EventView::RemoteUrl(Some(url)) => match spec_parse_remote(url) {
                Some(repository) => spec_advance(
                    PipelineView { owner: repository.owner, repo: repository.name, ..p },
                    Stage::ReadingToken,
                    ActionView::ReadToken,
                ),
                None => spec_fail(
                    p,
                    PipelineErrorKind::UnrecognizedRemoteUrl,
                    url,
                    Seq::empty(),
                ),
            },
            EventView::RemoteUrl(None) => spec_fail(
                p,
                PipelineErrorKind::NoRemoteUrl,
                Seq::empty(),
                Seq::empty(),
            ),
            _ => spec_unexpected(p),
        },
        Stage::ReadingToken => match e {
            EventView::Token(true) => spec_advance(
                p,
                Stage::ResolvingHead,
                ActionView::ResolveHead,
            ),
            EventView::Token(false) => spec_fail(
                p,
                PipelineErrorKind::MissingToken,
                Seq::empty(),
                Seq::empty(),
            ),
            _ => spec_unexpected(p),
        },
        Stage::ResolvingHead => match e {
            EventView::Head(Ok(commit)) => if commit.parents.len() == 0 {
                spec_fail(p, PipelineErrorKind::NoParent, commit.id, Seq::empty())
            } else if commit.parents.len() > 1 {
                spec_fail(p, PipelineErrorKind::MultipleParents, commit.id, Seq::empty())
            } else {
                spec_advance(
                    PipelineView { head: commit.id, parent: commit.parents[0], ..p },
                    Stage::Editing,
                    ActionView::EditChangeset,
                )
            },
            EventView::Head(Err(reason)) => spec_fail(
                p,
                PipelineErrorKind::NoHead,
                Seq::empty(),
                reason,
            ),
            _ => spec_unexpected(p),
        },
        Stage::Editing => match e {
            EventView::Edited { exit, written } => match spec_from_editor(
                exit,
                written,
                p.owner,
                p.repo,
            ) {
                Ok(changeset) => {
                    let q = PipelineView {
                        title: changeset.title,
                        body: changeset.message,
                        requested_branch: changeset.branch,
                        ..p
                    };
                    spec_advance(q, Stage::CreatingBaseBranch, spec_create_base(q))
                },
                Err(error) => spec_fail(
                    p,
                    if exit.spec_succeeded() {
                        PipelineErrorKind::InvalidChangeset
                    } else {
                        PipelineErrorKind::EditorAborted
                    },
                    Seq::empty(),
                    spec_source_description(error),
                ),
            },
            EventView::EditorFailed(reason) => spec_fail(
                p,
                PipelineErrorKind::EditorFailed,
                Seq::empty(),
                reason,
            ),
            _ => spec_unexpected(p),
        },
        Stage::CreatingBaseBranch => match e {
            EventView::Branch(BranchOutcomeView::Created) => spec_advance(
                p,
                Stage::PushingBaseBranch,
                ActionView::Push { branch: spec_base_branch_name(p.user, p.head) },
            ),
            EventView::Branch(BranchOutcomeView::AlreadyExists) => spec_fail(
                p,
                PipelineErrorKind::BranchAlreadyExists,
                spec_base_branch_name(p.user, p.head),
                Seq::empty(),
            ),
            EventView::Branch(BranchOutcomeView::Failed(reason)) => spec_fail(
                p,
                PipelineErrorKind::BranchNotCreated,
                spec_base_branch_name(p.user, p.head),
                reason,
            ),
            _ => spec_unexpected(p),
        },
        Stage::PushingBaseBranch => match e {
            EventView::Pushed(Ok(())) => spec_advance(
                p,
                Stage::CreatingHeadBranch,
                spec_create_head(p),
            ),
            EventView::Pushed(Err(reason)) => spec_fail(
                p,
                PipelineErrorKind::PushFailed,
                spec_base_branch_name(p.user, p.head),
                reason,
            ),
            _ => spec_unexpected(p),
        },
        Stage::CreatingHeadBranch => match e {
            EventView::Branch(BranchOutcomeView::Created) => spec_advance(
                p,
                Stage::PushingHeadBranch,
                ActionView::Push { branch: spec_head_branch_name(p.user, p.head) },
            ),
            EventView::Branch(BranchOutcomeView::AlreadyExists) => spec_fail(
                p,
                PipelineErrorKind::BranchAlreadyExists,
                spec_head_branch_name(p.user, p.head),
                Seq::empty(),
            ),
            EventView::Branch(BranchOutcomeView::Failed(reason)) => spec_fail(
                p,
                PipelineErrorKind::BranchNotCreated,
                spec_head_branch_name(p.user, p.head),
                reason,
            ),
            _ => spec_unexpected(p),
        },
        Stage::PushingHeadBranch => match e {
            EventView::Pushed(Ok(())) => spec_advance(
                p,
                Stage::OpeningPullRequest,
                spec_open_pull_request(p),
            ),
            EventView::Pushed(Err(reason)) => spec_fail(
                p,
                PipelineErrorKind::PushFailed,
                spec_head_branch_name(p.user, p.head),
                reason,
            ),
            _ => spec_unexpected(p),
        },
        Stage::OpeningPullRequest => match e {
            EventView::PullRequest(Ok(number)) => spec_advance(
                p,
                Stage::Done,
                ActionView::Finish { pull_request: number },
            ),
            EventView::PullRequest(Err(reason)) => spec_fail(
                p,
                PipelineErrorKind::PullRequestRejected,
                Seq::empty(),
                reason,
            ),
            _ => spec_unexpected(p),
        },
        Stage::Done => spec_refuse(p),
        Stage::Failed => spec_refuse(p),
    }
}

/// The place of a stage in the order of a run.
pub open spec fn spec_rank(stage: Stage) -> int {
    match stage {
        Stage::Start => 0,
        Stage::ReadingUser => 1,
        Stage::DiscoveringRepository => 2,
        Stage::FindingOrigin => 3,
        Stage::ReadingRemoteUrl => 4,
        Stage::ReadingToken => 5,
        Stage::ResolvingHead => 6,
        Stage::Editing => 7,
        Stage::CreatingBaseBranch => 8,
        Stage::PushingBaseBranch => 9,
        Stage::CreatingHeadBranch => 10,
        Stage::PushingHeadBranch => 11,
        Stage::OpeningPullRequest => 12,
        Stage::Done => 13,
        Stage::Failed => 14,
    }
}

/// Whether the run is over.
pub open spec fn spec_is_over(stage: Stage) -> bool {
    stage == Stage::Done || stage == Stage::Failed
}

/// Every step is a gate: a run that is not over either fails, and says so,
/// or goes on to the stage next in order, and does not say that it failed.
/// It never passes over a stage and never goes back. A run that is over
/// stays as it is and answers every event with a failure.
pub proof fn lemma_one_stage_at_a_time(p: PipelineView, e: EventView)
    ensures
        !spec_is_over(p.stage) ==> {
            let t = spec_step(p, e);
            ||| t.next.stage == Stage::Failed && t.action is Fail
            ||| spec_rank(t.next.stage) == spec_rank(p.stage) + 1 && !(t.action is Fail)
        },
        spec_is_over(p.stage) ==> spec_step(p, e).next == p && spec_step(p, e).action is Fail,
{
}

/// Nothing is created, pushed or opened before the changeset has been
/// read, so not before the remote has been recognized and the commit has
/// been found to have exactly one parent. What is then created, pushed and
/// opened is named after the user and the commit: the base branch at the
/// parent, the head branch at the commit, and a pull request in the
/// repository of the remote, from the head branch into the base branch, with
/// the title and body of the changeset. No existing branch is overwritten.
pub proof fn lemma_side_effects(p: PipelineView, e: EventView)
    ensures
        ({
            let a = spec_step(p, e).action;
            &&& (a is CreateBranch || a is Push || a is CreatePullRequest) ==> spec_rank(p.stage)
                >= spec_rank(Stage::Editing)
            &&& a is CreateBranch ==> a == spec_create_base(spec_step(p, e).next) || a
                == spec_create_head(spec_step(p, e).next)
            &&& a matches ActionView::Push { branch } ==> branch == spec_base_branch_name(
                p.user,
                p.head,
            ) || branch == spec_head_branch_name(p.user, p.head)
            &&& a is CreatePullRequest ==> a == spec_open_pull_request(p)
        }),
{
}

/// A commit with more than one parent ends the run where the commit is
/// resolved, with `MultipleParents`; a commit without a parent ends it there
/// with `NoParent`.
pub proof fn lemma_one_parent_only(p: PipelineView, commit: HeadCommitView)
    requires
        p.stage == Stage::ResolvingHead,
    ensures
        commit.parents.len() > 1 ==> spec_step(p, EventView::Head(Ok(commit))) == spec_fail(
            p,
            PipelineErrorKind::MultipleParents,
            commit.id,
            Seq::empty(),
        ),
        commit.parents.len() == 0 ==> spec_step(p, EventView::Head(Ok(commit))) == spec_fail(
            p,
            PipelineErrorKind::NoParent,
            commit.id,
            Seq::empty(),
        ),
{
}

/// The state before anything has been asked for.
pub open spec fn spec_initial() -> PipelineView {
    PipelineView {
        stage: Stage::Start,
        user: Seq::empty(),
        owner: Seq::empty(),
        repo: Seq::empty(),
        head: Seq::empty(),
        parent: Seq::empty(),
        title: Seq::empty(),
        body: None,
        requested_branch: None,
    }
}

/// One run, from the first step to the open pull request or the first
/// failure.
#[derive(Debug)]
pub struct Pipeline {
    stage: Stage,
    user: String,
    owner: String,
    repo: String,
    head: String,
    parent: String,
    title: String,
    body: Option<String>,
    requested_branch: Option<String>,
}

impl View for Pipeline {
    type V = PipelineView;

    closed spec fn view(&self) -> PipelineView {
        PipelineView {
            stage: self.stage,
            user: self.user@,
            owner: self.owner@,
            repo: self.repo@,
            head: self.head@,
            parent: self.parent@,
            title: self.title@,
            body: spec_opt_view(self.body),
            requested_branch: spec_opt_view(self.requested_branch),
        }
    }
}

/// A copy of an optional string.
fn copy_opt(s: &Option<String>) -> (c: Option<String>)
    ensures
        spec_opt_view(c) == spec_opt_view(*s),
{
    match s {
        Some(s) => Some(s.clone()),
        None => None,
    }
}

impl Pipeline {
    /// A run that has not begun. It begins with the event `Started`.
    pub fn new() -> (p: Pipeline)
        ensures
            p@ == spec_initial(),
    {
        Pipeline {
            stage: Stage::Start,
            user: String::new(),
            owner: String::new(),
            repo: String::new(),
            head: String::new(),
            parent: String::new(),
            title: String::new(),
            body: None,
            requested_branch: None,
        }
    }

    /// Where the run stands.
    pub fn stage(&self) -> (stage: Stage)
        ensures
            stage == self@.stage,
    {
        self.stage
    }

    /// The branch name that the changeset asks for, if it has been read and
    /// asks for one. No branch of the run is named by it.
    pub fn requested_branch(&self) -> (branch: Option<String>)
        ensures
            spec_opt_view(branch) == self@.requested_branch,
    {
        copy_opt(&self.requested_branch)
    }

    /// Whether the run is over, with a pull request or with a failure.
    pub fn is_over(&self) -> (over: bool)
        ensures
            over == (self@.stage == Stage::Done || self@.stage == Stage::Failed),
    {
        match self.stage {
            Stage::Done => true,
            Stage::Failed => true,
            _ => false,
        }
    }

    fn advance(&mut self, stage: Stage, action: Action) -> (r: Action)
        ensures
            (Transition { next: final(self)@, action: r@ }) == spec_advance(
                old(self)@,
                stage,
                action@,
            ),
    {
        self.stage = stage;
        action
    }

    fn fail(&mut self, kind: PipelineErrorKind, subject: String, detail: String) -> (r: Action)
        ensures
            (Transition { next: final(self)@, action: r@ }) == spec_fail(
                old(self)@,
                kind,
                subject@,
                detail@,
            ),
    {
        self.stage = Stage::Failed;
        Action::Fail(PipelineError { kind, subject, detail })
    }

    fn unexpected(&mut self) -> (r: Action)
        ensures
            (Transition { next: final(self)@, action: r@ }) == spec_unexpected(old(self)@),
    {
        self.fail(PipelineErrorKind::UnexpectedEvent, String::new(), String::new())
    }

    fn refuse(&self) -> (r: Action)
        ensures
            (Transition { next: self@, action: r@ }) == spec_refuse(self@),
    {
        Action::Fail(
            PipelineError {
                kind: PipelineErrorKind::UnexpectedEvent,
                subject: String::new(),
                detail: String::new(),
            },
        )
    }

    fn base_name(&self) -> (name: String)
        ensures
            name@ == spec_base_branch_name(self@.user, self@.head),
    {
        base_branch_name(self.user.as_str(), self.head.as_str())
    }

    fn head_name(&self) -> (name: String)
        ensures
            name@ == spec_head_branch_name(self@.user, self@.head),
    {
        head_branch_name(self.user.as_str(), self.head.as_str())
    }

    fn create_base(&self) -> (action: Action)
        ensures
            action@ == spec_create_base(self@),
    {
        Action::CreateBranch {
            name: self.base_name(),
            target: self.parent.clone(),
            overwrite: false,
        }
    }

    fn create_head(&self) -> (action: Action)
        ensures
            action@ == spec_create_head(self@),
    {
        Action::CreateBranch { name: self.head_name(), target: self.head.clone(), overwrite: false }
    }

    fn open_pull_request(&self) -> (action: Action)
        ensures
            action@ == spec_open_pull_request(self@),
    {
        Action::CreatePullRequest {
            owner: self.owner.clone(),
            repo: self.repo.clone(),
            title: self.title.clone(),
            body: copy_opt(&self.body),
            head: self.head_name(),
            base: self.base_name(),
        }
    }

    fn on_start(&mut self, event: Event) -> (r: Action)
        requires
            old(self)@.stage == Stage::Start,
        ensures
            (Transition { next: final(self)@, action: r@ }) == spec_step(old(self)@, event@),
    {
        match event {
            Event::Started => self.advance(Stage::ReadingUser, Action::ReadUser),
            _ => self.unexpected(),
        }
    }

    fn on_user(&mut self, event: Event) -> (r: Action)
        requires
            old(self)@.stage == Stage::ReadingUser,
        ensures
            (Transition { next: final(self)@, action: r@ }) == spec_step(old(self)@, event@),
    {
        match event {
            Event::User(Some(user)) => {
                self.user = user;
                self.advance(Stage::DiscoveringRepository, Action::DiscoverRepository)
            },
            Event::User(None) => self.fail(
                PipelineErrorKind::MissingUser,
                String::new(),
                String::new(),
            ),
            _ => self.unexpected(),
        }
    }

    fn on_repository(&mut self, event: Event) -> (r: Action)
        requires
            old(self)@.stage == Stage::DiscoveringRepository,
        ensures
            (Transition { next: final(self)@, action: r@ }) == spec_step(old(self)@, event@),
    {
        match event {
            Event::Repository(Ok(())) => self.advance(Stage::FindingOrigin, Action::FindOrigin),
            Event::Repository(Err(reason)) => self.fail(
                PipelineErrorKind::NotARepository,
                String::new(),
                reason,
            ),
            _ => self.unexpected(),
        }
    }

    fn on_origin(&mut self, event: Event) -> (r: Action)
        requires
            old(self)@.stage == Stage::FindingOrigin,
        ensures
            (Transition { next: final(self)@, action: r@ }) == spec_step(old(self)@, event@),
    {
        match event {
            Event::Origin(Ok(())) => self.advance(Stage::ReadingRemoteUrl, Action::ReadRemoteUrl),
            Event::Origin(Err(reason)) => self.fail(
                PipelineErrorKind::NoOriginRemote,
                String::new(),
                reason,
            ),
            _ => self.unexpected(),
        }
    }

    fn on_remote_url(&mut self, event: Event) -> (r: Action)
        requires
            old(self)@.stage == Stage::ReadingRemoteUrl,
        ensures
            (Transition { next: final(self)@, action: r@ }) == spec_step(old(self)@, event@),
    {
        match event {
            Event::RemoteUrl(Some(url)) => match parse_remote(url.as_str()) {
                Some(repository) => {
                    self.owner = repository.owner;
                    self.repo = repository.name;
                    self.advance(Stage::ReadingToken, Action::ReadToken)
                },
                None => self.fail(PipelineErrorKind::UnrecognizedRemoteUrl, url, String::new()),
            },
            Event::RemoteUrl(None) => self.fail(
                PipelineErrorKind::NoRemoteUrl,
                String::new(),
                String::new(),
            ),
            _ => self.unexpected(),
        }
    }

    fn on_token(&mut self, event: Event) -> (r: Action)
        requires
            old(self)@.stage == Stage::ReadingToken,
        ensures
            (Transition { next: final(self)@, action: r@ }) == spec_step(old(self)@, event@),
    {
        match event {
            Event::Token(true) => self.advance(Stage::ResolvingHead, Action::ResolveHead),
            Event::Token(false) => self.fail(
                PipelineErrorKind::MissingToken,
                String::new(),
                String::new(),
            ),
            _ => self.unexpected(),
        }
    }

    fn on_head(&mut self, event: Event) -> (r: Action)
        requires
            old(self)@.stage == Stage::ResolvingHead,
        ensures
            (Transition { next: final(self)@, action: r@ }) == spec_step(old(self)@, event@),
    {
        match event {
            Event::Head(Ok(commit)) => {
                if commit.parents.len() == 0 {
                    self.fail(PipelineErrorKind::NoParent, commit.id, String::new())
                } else if commit.parents.len() > 1 {
                    self.fail(PipelineErrorKind::MultipleParents, commit.id, String::new())
                } else {
                    self.parent = commit.parents[0].clone();
                    self.head = commit.id;
                    self.advance(Stage::Editing, Action::EditChangeset)
                }
            },
            Event::Head(Err(reason)) => self.fail(
                PipelineErrorKind::NoHead,
                String::new(),
                reason,
            ),
            _ => self.unexpected(),
        }
    }

    fn on_edited(&mut self, event: Event) -> (r: Action)
        requires
            old(self)@.stage == Stage::Editing,
        ensures
            (Transition { next: final(self)@, action: r@ }) == spec_step(old(self)@, event@),
    {
        match event {
            Event::Edited { exit, written } => match Changeset::new_from_editor(
                exit,
                written.as_str(),
                self.owner.as_str(),
                self.repo.as_str(),
            ) {
                Ok(changeset) => {
                    self.title = changeset.title;
                    self.body = changeset.message;
                    self.requested_branch = changeset.branch;
                    let action = self.create_base();
                    self.advance(Stage::CreatingBaseBranch, action)
                },
                Err(error) => {
                    let kind = if exit.succeeded() {
                        PipelineErrorKind::InvalidChangeset
                    } else {
                        PipelineErrorKind::EditorAborted
                    };
                    let detail = error.description();
                    self.fail(kind, String::new(), detail)
                },
            },
            Event::EditorFailed(reason) => self.fail(
                PipelineErrorKind::EditorFailed,
                String::new(),
                reason,
            ),
            _ => self.unexpected(),
        }
    }

    fn on_branch(&mut self, event: Event) -> (r: Action)
        requires
            old(self)@.stage == Stage::CreatingBaseBranch || old(self)@.stage
                == Stage::CreatingHeadBranch,
        ensures
            (Transition { next: final(self)@, action: r@ }) == spec_step(old(self)@, event@),
    {
        let base = match self.stage {
            Stage::CreatingBaseBranch => true,
            _ => false,
        };
        match event {
            Event::Branch(outcome) => {
                let branch = if base {
                    self.base_name()
                } else {
                    self.head_name()
                };
                match outcome {
                    BranchOutcome::Created => {
                        let next = if base {
                            Stage::PushingBaseBranch
                        } else {
                            Stage::PushingHeadBranch
                        };
                        self.advance(next, Action::Push { branch })
                    },
                    BranchOutcome::AlreadyExists => self.fail(
                        PipelineErrorKind::BranchAlreadyExists,
                        branch,
                        String::new(),
                    ),
                    BranchOutcome::Failed(reason) => self.fail(
                        PipelineErrorKind::BranchNotCreated,
                        branch,
                        reason,
                    ),
                }
            },
            _ => self.unexpected(),
        }
    }

    fn on_pushed(&mut self, event: Event) -> (r: Action)
        requires
            old(self)@.stage == Stage::PushingBaseBranch || old(self)@.stage
                == Stage::PushingHeadBranch,
        ensures
            (Transition { next: final(self)@, action: r@ }) == spec_step(old(self)@, event@),
    {
        let base = match self.stage {
            Stage::PushingBaseBranch => true,
            _ => false,
        };
        match event {
            Event::Pushed(Ok(())) => {
                if base {
                    let action = self.create_head();
                    self.advance(Stage::CreatingHeadBranch, action)
                } else {
                    let action = self.open_pull_request();
                    self.advance(Stage::OpeningPullRequest, action)
                }
            },
            Event::Pushed(Err(reason)) => {
                let branch = if base {
                    self.base_name()
                } else {
                    self.head_name()
                };
                self.fail(PipelineErrorKind::PushFailed, branch, reason)
            },
            _ => self.unexpected(),
        }
    }

    fn on_pull_request(&mut self, event: Event) -> (r: Action)
        requires
            old(self)@.stage == Stage::OpeningPullRequest,
        ensures
            (Transition { next: final(self)@, action: r@ }) == spec_step(old(self)@, event@),
    {
        match event {
            Event::PullRequest(Ok(number)) => self.advance(
                Stage::Done,
                Action::Finish { pull_request: number },
            ),
            Event::PullRequest(Err(reason)) => self.fail(
                PipelineErrorKind::PullRequestRejected,
                String::new(),
                reason,
            ),
            _ => self.unexpected(),
        }
    }

    /// Takes in what the last step brought and says what to do next.
    ///
    /// The steps are asked for in this order: read the user, find the
    /// repository, find `origin`, read its address, look for the access
    /// token, resolve `HEAD`, let the author edit the changeset, create the
    /// base branch at the parent, push it, create the head branch at the
    /// commit, push it, open the pull request. The address must name a
    /// repository on the forge, the commit must have exactly one parent
    /// and the changeset must have a title. The pull request takes its
    /// title and body from the changeset. After `Finish` or `Fail` the run
    /// is over.
    pub fn step(&mut self, event: Event) -> (action: Action)
        ensures
            (Transition { next: final(self)@, action: action@ }) == spec_step(old(self)@, event@),
    {
        match self.stage {
            Stage::Start => self.on_start(event),
            Stage::ReadingUser => self.on_user(event),
            Stage::DiscoveringRepository => self.on_repository(event),
            Stage::FindingOrigin => self.on_origin(event),
            Stage::ReadingRemoteUrl => self.on_remote_url(event),
            Stage::ReadingToken => self.on_token(event),
            Stage::ResolvingHead => self.on_head(event),
            Stage::Editing => self.on_edited(event),
            Stage::CreatingBaseBranch => self.on_branch(event),
            Stage::PushingBaseBranch => self.on_pushed(event),
            Stage::CreatingHeadBranch => self.on_branch(event),
            Stage::PushingHeadBranch => self.on_pushed(event),
            Stage::OpeningPullRequest => self.on_pull_request(event),
            Stage::Done => self.refuse(),
            Stage::Failed => self.refuse(),
        }
    }
}

} // verus!
