//! Whole runs: what a pipeline does over a sequence of events, and what
//! holds of the run in which every step succeeds and of the run that comes
//! to a merge commit.
use crate::branches::{spec_base_branch_name, spec_head_branch_name};
use crate::changeset::{spec_parse, ChangesetView};
use crate::editor::EditorExit;
use crate::failure::{PipelineErrorKind, PipelineErrorView};
use crate::pipeline::{
    spec_initial, spec_step, ActionView, BranchOutcomeView, EventView, HeadCommitView,
    PipelineView, Stage, Transition,
};
use crate::remote::{spec_parse_remote, RemoteRepositoryView};
use vstd::prelude::*;

verus! {

/// The state of a run after a sequence of events.
pub open spec fn spec_state_after(p: PipelineView, events: Seq<EventView>) -> PipelineView
    decreases events.len(),
{
    if events.len() == 0 {
        p
    } else {
        spec_step(spec_state_after(p, events.drop_last()), events.last()).next
    }
}

/// The actions that a run asks for, one for each of a sequence of events.
pub open spec fn spec_actions(p: PipelineView, events: Seq<EventView>) -> Seq<ActionView>
    decreases events.len(),
{
    if events.len() == 0 {
        Seq::empty()
    } else {
        spec_actions(p, events.drop_last()).push(
            spec_step(spec_state_after(p, events.drop_last()), events.last()).action,
        )
    }
}

/// One more event adds one action, the one of the step from the state that
/// the events before it lead to.
pub proof fn lemma_run_step(p: PipelineView, events: Seq<EventView>, k: int)
    requires
        0 <= k < events.len(),
    ensures
        spec_state_after(p, events.take(k + 1)) == spec_step(
            spec_state_after(p, events.take(k)),
            events[k],
        ).next,
        spec_actions(p, events.take(k + 1)) == spec_actions(p, events.take(k)).push(
            spec_step(spec_state_after(p, events.take(k)), events[k]).action,
        ),
{
    assert(events.take(k + 1).drop_last() =~= events.take(k));
    assert(events.take(k + 1).last() == events[k]);
}

/// What a run without a failure is made of: what the environment, the
/// repository, the author and the forge bring.
pub struct Success {
    /// The name of the user.
    pub user: Seq<char>,
    /// The address of the remote.
    pub url: Seq<char>,
    /// The id of the commit at `HEAD`.
    pub head: Seq<char>,
    /// The id of its one parent.
    pub parent: Seq<char>,
    /// What the author wrote in the editor.
    pub written: Seq<char>,
    /// The number of the pull request that the forge opens.
    pub number: u64,
}

impl Success {
    /// The remote names a repository on the forge.
    pub open spec fn recognized(self) -> bool {
        spec_parse_remote(self.url) is Some
    }

    /// The remote names a repository on the forge and what the author
    /// wrote is a changeset for it.
    pub open spec fn possible(self) -> bool {
        &&& self.recognized()
        &&& spec_parse(self.written, self.repository().owner, self.repository().name) is Ok
    }

    /// The repository that the remote names.
    pub open spec fn repository(self) -> RemoteRepositoryView {
        spec_parse_remote(self.url)->Some_0
    }

    /// The changeset that the author wrote.
    pub open spec fn changeset(self) -> ChangesetView {
        spec_parse(self.written, self.repository().owner, self.repository().name)->Ok_0
    }

    /// The event that answers the action at position `k` of the run.
    pub open spec fn event(self, k: int) -> EventView {
        if k == 0 {
            EventView::Started
        } else if k == 1 {
            EventView::User(Some(self.user))
        } else if k == 2 {
            EventView::Repository(Ok(()))
        } else if k == 3 {
            EventView::Origin(Ok(()))
        } else if k == 4 {
            EventView::RemoteUrl(Some(self.url))
        } else if k == 5 {
            EventView::Token(true)
        } else if k == 6 {
            EventView::Head(Ok(HeadCommitView { id: self.head, parents: seq![self.parent] }))
        } else if k == 7 {
            EventView::Edited { exit: EditorExit::Exited(0), written: self.written }
        } else if k == 8 {
            EventView::Branch(BranchOutcomeView::Created)
        } else if k == 9 {
            EventView::Pushed(Ok(()))
        } else if k == 10 {
            EventView::Branch(BranchOutcomeView::Created)
        } else if k == 11 {
            EventView::Pushed(Ok(()))
        } else {
            EventView::PullRequest(Ok(self.number))
        }
    }

    /// The action that the run asks for at position `k`.
    pub open spec fn action(self, k: int) -> ActionView {
        if k == 0 {
            ActionView::ReadUser
        } else if k == 1 {
            ActionView::DiscoverRepository
        } else if k == 2 {
            ActionView::FindOrigin
        } else if k == 3 {
            ActionView::ReadRemoteUrl
        } else if k == 4 {
            ActionView::ReadToken
        } else if k == 5 {
            ActionView::ResolveHead
        } else if k == 6 {
            ActionView::EditChangeset
        } else if k == 7 {
            ActionView::CreateBranch {
                name: spec_base_branch_name(self.user, self.head),
                target: self.parent,
                overwrite: false,
            }
        } else if k == 8 {
            ActionView::Push { branch: spec_base_branch_name(self.user, self.head) }
        } else if k == 9 {
            ActionView::CreateBranch {
                name: spec_head_branch_name(self.user, self.head),
                target: self.head,
                overwrite: false,
            }
        } else if k == 10 {
            ActionView::Push { branch: spec_head_branch_name(self.user, self.head) }
        } else if k == 11 {
            ActionView::CreatePullRequest {
                owner: self.repository().owner,
                repo: self.repository().name,
                title: self.changeset().title,
                body: self.changeset().message,
                head: spec_head_branch_name(self.user, self.head),
                base: spec_base_branch_name(self.user, self.head),
            }
        } else {
            ActionView::Finish { pull_request: self.number }
        }
    }

    /// The stage that the run is in after `k` events.
    pub open spec fn stage(k: int) -> Stage {
        if k == 0 {
            Stage::Start
        } else if k == 1 {
            Stage::ReadingUser
        } else if k == 2 {
            Stage::DiscoveringRepository
        } else if k == 3 {
            Stage::FindingOrigin
        } else if k == 4 {
            Stage::ReadingRemoteUrl
        } else if k == 5 {
            Stage::ReadingToken
        } else if k == 6 {
            Stage::ResolvingHead
        } else if k == 7 {
            Stage::Editing
        } else if k == 8 {
            Stage::CreatingBaseBranch
        } else if k == 9 {
            Stage::PushingBaseBranch
        } else if k == 10 {
            Stage::CreatingHeadBranch
        } else if k == 11 {
            Stage::PushingHeadBranch
        } else if k == 12 {
            Stage::OpeningPullRequest
        } else {
            Stage::Done
        }
    }

    /// The state of the run after `k` events: the stage, and what has been
    /// learned by then.
    pub open spec fn state(self, k: int) -> PipelineView {
        PipelineView {
            stage: Self::stage(k),
            user: if k >= 2 {
                self.user
            } else {
                Seq::empty()
            },
            owner: if k >= 5 {
                self.repository().owner
            } else {
                Seq::empty()
            },
            repo: if k >= 5 {
                self.repository().name
            } else {
                Seq::empty()
            },
            head: if k >= 7 {
                self.head
            } else {
                Seq::empty()
            },
            parent: if k >= 7 {
                self.parent
            } else {
                Seq::empty()
            },
            title: if k >= 8 {
                self.changeset().title
            } else {
                Seq::empty()
            },
            body: if k >= 8 {
                self.changeset().message
            } else {
                None
            },
            requested_branch: if k >= 8 {
                self.changeset().branch
            } else {
                None
            },
        }
    }

    /// The thirteen events of the run, in order.
    pub open spec fn events(self) -> Seq<EventView> {
        Seq::new(13, |k: int| self.event(k))
    }

    /// The thirteen actions of the run, in order.
    pub open spec fn actions(self) -> Seq<ActionView> {
        Seq::new(13, |k: int| self.action(k))
    }
}

/// In a run without a failure, the event at position `k` takes the run
/// from its state after `k` events to its state after `k + 1`, with the
/// action at position `k`.
pub proof fn lemma_success_step(run: Success, k: int)
    requires
        run.recognized(),
        k >= 7 ==> run.possible(),
        0 <= k < 13,
    ensures
        spec_step(run.state(k), run.event(k)) == (Transition {
            next: run.state(k + 1),
            action: run.action(k),
        }),
{
    if k == 6 {
        let commit = HeadCommitView { id: run.head, parents: seq![run.parent] };
        assert(commit.parents.len() == 1 && commit.parents[0] == run.parent);
    }
    if k == 7 {
        assert(EditorExit::Exited(0).spec_succeeded());
    }
}

/// The first `k` events of a run without a failure lead to its state after
/// `k` events, and the run asks for its first `k` actions.
pub proof fn lemma_success_prefix(run: Success, k: int)
    requires
        run.recognized(),
        k > 7 ==> run.possible(),
        0 <= k <= 13,
    ensures
        spec_state_after(spec_initial(), run.events().take(k)) == run.state(k),
        spec_actions(spec_initial(), run.events().take(k)) == run.actions().take(k),
    decreases k,
{
    if k == 0 {
        assert(run.events().take(0) =~= Seq::empty());
        assert(run.actions().take(0) =~= Seq::empty());
    } else {
        lemma_success_prefix(run, k - 1);
        lemma_run_step(spec_initial(), run.events(), k - 1);
        lemma_success_step(run, k - 1);
        assert(run.actions().take(k) =~= run.actions().take(k - 1).push(run.action(k - 1)));
    }
}

/// A run in which every step succeeds: the commit has one parent, the
/// remote names a repository on the forge and what the author wrote is a
/// changeset. It asks for the steps in their order, creates the base branch
/// at the parent and the head branch at the commit, both named after the
/// user and the commit, pushes each after creating it, opens the pull
/// request from the head branch into the base branch with the title and the
/// message of the changeset, and finishes with the number that the forge
/// gave.
pub proof fn lemma_successful_run(run: Success)
    requires
        run.possible(),
    ensures
        spec_actions(spec_initial(), run.events()) == run.actions(),
        spec_state_after(spec_initial(), run.events()) == run.state(13),
        run.state(13).stage == Stage::Done,
{
    lemma_success_prefix(run, 13);
    assert(run.events().take(13) =~= run.events());
    assert(run.actions().take(13) =~= run.actions());
}

/// A run that comes to a commit with more than one parent fails there with
/// `MultipleParents`. It has asked for six steps by then, none of which
/// creates or pushes a branch or opens a pull request.
pub proof fn lemma_merge_commit_run(run: Success, commit: HeadCommitView)
    requires
        run.recognized(),
        commit.parents.len() > 1,
    ensures
        ({
            let events = run.events().take(6).push(EventView::Head(Ok(commit)));
            let actions = spec_actions(spec_initial(), events);
            &&& actions == run.actions().take(6).push(
                ActionView::Fail(
                    PipelineErrorView {
                        kind: PipelineErrorKind::MultipleParents,
                        subject: commit.id,
                        detail: Seq::empty(),
                    },
                ),
            )
            &&& spec_state_after(spec_initial(), events).stage == Stage::Failed
            &&& forall|i: int|
                0 <= i < actions.len() ==> !(actions[i] is CreateBranch || actions[i] is Push
                    || actions[i] is CreatePullRequest)
        }),
{
    let events = run.events().take(6).push(EventView::Head(Ok(commit)));
    lemma_success_prefix(run, 6);
    assert(events.drop_last() =~= run.events().take(6));
    assert(events.last() == EventView::Head(Ok(commit)));
    let actions = spec_actions(spec_initial(), events);
    assert forall|i: int| 0 <= i < actions.len() implies !(actions[i] is CreateBranch
        || actions[i] is Push || actions[i] is CreatePullRequest) by {
        if i < 6 {
            assert(actions[i] == run.action(i));
        }
    }
}

} // verus!
