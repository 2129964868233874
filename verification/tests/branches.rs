use stack::branches::{base_branch_name, head_branch_name, StackBranchPair};

const HEAD: &str = "3f786850e387550fdab836ed7e6dc881de23001b";
const PARENT: &str = "89e6c98d92887913cadf06b2adb97f26cde4849b";

#[test]
fn branch_names_are_made_of_user_and_commit() {
    assert_eq!(
        base_branch_name("coneko", HEAD),
        "coneko-stack-3f786850e387550fdab836ed7e6dc881de23001b-base"
    );
    assert_eq!(
        head_branch_name("coneko", HEAD),
        "coneko-stack-3f786850e387550fdab836ed7e6dc881de23001b-pr"
    );
    assert_eq!(base_branch_name("", ""), "-stack--base");
    assert_eq!(head_branch_name("ü", "é"), "ü-stack-é-pr");
}

#[test]
fn pair_points_base_at_the_parent_and_head_at_the_commit() {
    let pair = StackBranchPair::derive("coneko", HEAD, PARENT);
    assert_eq!(pair.base_branch_name, base_branch_name("coneko", HEAD));
    assert_eq!(pair.base_commit, PARENT);
    assert_eq!(pair.head_branch_name, head_branch_name("coneko", HEAD));
    assert_eq!(pair.head_commit, HEAD);
}

#[test]
fn same_commit_gives_the_same_names_and_another_commit_other_names() {
    let first = StackBranchPair::derive("coneko", HEAD, PARENT);
    let again = StackBranchPair::derive("coneko", HEAD, PARENT);
    assert_eq!(first.base_branch_name, again.base_branch_name);
    assert_eq!(first.head_branch_name, again.head_branch_name);
    let other = StackBranchPair::derive("coneko", PARENT, HEAD);
    assert_ne!(first.base_branch_name, other.base_branch_name);
    assert_ne!(first.head_branch_name, other.head_branch_name);
    assert_ne!(first.base_branch_name, first.head_branch_name);
}
