//! The two branches of one stacked change: a base branch at the parent of
//! the commit and a head branch at the commit itself, both named after the
//! author and the commit.
use vstd::prelude::*;
use vstd::string::StringExecFns;

verus! {

/// What the names of all branches of the author `user` begin with.
pub open spec fn spec_branch_prefix(user: Seq<char>) -> Seq<char> {
    user + "-stack-"@
}

/// The name of the base branch for the commit `head` of the author `user`.
pub open spec fn spec_base_branch_name(user: Seq<char>, head: Seq<char>) -> Seq<char> {
    spec_branch_prefix(user) + head + "-base"@
}

/// The name of the head branch for the commit `head` of the author `user`.
pub open spec fn spec_head_branch_name(user: Seq<char>, head: Seq<char>) -> Seq<char> {
    spec_branch_prefix(user) + head + "-pr"@
}

/// The two branches of a stacked change and the commits they point to.
#[derive(Clone, Debug)]
pub struct StackBranchPair {
    /// The name of the base branch.
    pub base_branch_name: String,
    /// The commit that the base branch points to: the parent.
    pub base_commit: String,
    /// The name of the head branch.
    pub head_branch_name: String,
    /// The commit that the head branch points to: the commit itself.
    pub head_commit: String,
}

impl StackBranchPair {
    /// The pair is the one of the author `user`: both names are made of the
    /// author's prefix and the head commit, the base branch ends in `-base`
    /// and the head branch in `-pr`.
    pub open spec fn well_formed(&self, user: Seq<char>) -> bool {
        &&& self.base_branch_name@ == spec_base_branch_name(user, self.head_commit@)
        &&& self.head_branch_name@ == spec_head_branch_name(user, self.head_commit@)
    }

    /// The branches for the commit `head` with the parent `parent`, named
    /// for the author `user`.
    pub fn derive(user: &str, head: &str, parent: &str) -> (pair: StackBranchPair)
        ensures
            pair.well_formed(user@),
            pair.head_commit@ == head@,
            pair.base_commit@ == parent@,
    {
        StackBranchPair {
            base_branch_name: base_branch_name(user, head),
            base_commit: String::from_str(parent),
            head_branch_name: head_branch_name(user, head),
            head_commit: String::from_str(head),
        }
    }
}

/// The name of the base branch for the commit `head` of the author `user`.
pub fn base_branch_name(user: &str, head: &str) -> (name: String)
    ensures
        name@ == spec_base_branch_name(user@, head@),
{
    let mut name = String::from_str(user);
    name.append("-stack-");
    name.append(head);
    name.append("-base");
    name
}

/// The name of the head branch for the commit `head` of the author `user`.
pub fn head_branch_name(user: &str, head: &str) -> (name: String)
    ensures
        name@ == spec_head_branch_name(user@, head@),
{
    let mut name = String::from_str(user);
    name.append("-stack-");
    name.append(head);
    name.append("-pr");
    name
}

/// What is put between the same beginning and the same end is the same if
/// the wholes are.
proof fn lemma_middle(before: Seq<char>, a: Seq<char>, b: Seq<char>, after: Seq<char>)
    requires
        before + a + after == before + b + after,
    ensures
        a == b,
{
    let x = before + a + after;
    let y = before + b + after;
    assert(x.len() == y.len());
    assert(a.len() == b.len());
    assert forall|i: int| 0 <= i < a.len() implies a[i] == b[i] by {
        assert(x[before.len() + i] == a[i]);
        assert(y[before.len() + i] == b[i]);
    }
    assert(a =~= b);
}

/// Branch names are a function of the author and the commit alone, so the
/// same commit always gives the same names; and for one author two
/// commits have the same base branch, or the same head branch, only if
/// they are the same commit. The base and the head branch of a commit
/// never share a name.
pub proof fn lemma_branch_names(user: Seq<char>, a: Seq<char>, b: Seq<char>)
    ensures
        a == b ==> spec_base_branch_name(user, a) == spec_base_branch_name(user, b),
        a == b ==> spec_head_branch_name(user, a) == spec_head_branch_name(user, b),
        a != b ==> spec_base_branch_name(user, a) != spec_base_branch_name(user, b),
        a != b ==> spec_head_branch_name(user, a) != spec_head_branch_name(user, b),
        spec_base_branch_name(user, a) != spec_head_branch_name(user, a),
{
    if spec_base_branch_name(user, a) == spec_base_branch_name(user, b) {
        lemma_middle(spec_branch_prefix(user), a, b, "-base"@);
    }
    if spec_head_branch_name(user, a) == spec_head_branch_name(user, b) {
        lemma_middle(spec_branch_prefix(user), a, b, "-pr"@);
    }
    reveal_strlit("-base");
    reveal_strlit("-pr");
    assert(spec_base_branch_name(user, a).len() != spec_head_branch_name(user, a).len());
}

} // verus!
