//! The address of the `origin` remote, from which the owner and the name of
//! the repository on the forge are taken.
use crate::text::{chars_of, find, lemma_find_is, spec_find, starts_with_str, Span};
use vstd::prelude::*;
use vstd::slice::slice_subrange;
use vstd::string::{StrSliceExecFns, StringExecFns};

verus! {

/// The repository on the forge that a remote points to.
#[derive(Clone, Debug)]
pub struct RemoteRepository {
    pub owner: String,
    pub name: String,
}

/// A `RemoteRepository` as plain values.
pub struct RemoteRepositoryView {
    pub owner: Seq<char>,
    pub name: Seq<char>,
}

impl View for RemoteRepository {
    type V = RemoteRepositoryView;

    open spec fn view(&self) -> RemoteRepositoryView {
        RemoteRepositoryView { owner: self.owner@, name: self.name@ }
    }
}

/// The repository that the remote address `url` points to, if the address
/// has the shape `git@github.com:OWNER/NAME.git`. The owner is what stands
/// before the first `/`; it is not empty. The name is what stands between
/// that `/` and the final `.git`; it is not empty and holds no line feed.
pub open spec fn spec_parse_remote(url: Seq<char>) -> Option<RemoteRepositoryView> {
    let prefix = "git@github.com:"@;
    let suffix = ".git"@;
    if !prefix.is_prefix_of(url) {
        None
    } else {
        let rest = url.skip(prefix.len() as int);
        let slash = spec_find(rest, '/');
        if slash == 0 || slash >= rest.len() {
            None
        } else {
            let tail = rest.skip(slash as int + 1);
            let name = tail.take(tail.len() - suffix.len());
            if tail.len() <= suffix.len() || tail.skip(tail.len() - suffix.len()) != suffix
                || spec_find(name, '\n') < name.len() {
                None
            } else {
                Some(RemoteRepositoryView { owner: rest.take(slash as int), name })
            }
        }
    }
}

/// An owner and a name without `/` or line feed, both not empty, are read
/// back from the address made of them.
pub proof fn lemma_parse_remote_round_trip(owner: Seq<char>, name: Seq<char>)
    requires
        owner.len() > 0,
        name.len() > 0,
        !owner.contains('/'),
        !name.contains('\n'),
    ensures
        spec_parse_remote("git@github.com:"@ + owner + "/"@ + name + ".git"@) == Some(
            RemoteRepositoryView { owner, name },
        ),
{
    let prefix = "git@github.com:"@;
    let suffix = ".git"@;
    let url = prefix + owner + "/"@ + name + suffix;
    reveal_strlit("/");
    reveal_strlit(".git");
    assert(prefix =~= url.subrange(0, prefix.len() as int));
    let rest = url.skip(prefix.len() as int);
    assert(rest =~= owner + "/"@ + name + suffix);
    assert forall|i: int| 0 <= i < owner.len() implies rest[i] != '/' by {
        assert(rest[i] == owner[i]);
        assert(owner.contains(owner[i]));
    }
    lemma_find_is(rest, '/', owner.len() as int);
    let tail = rest.skip(owner.len() as int + 1);
    assert(tail =~= name + suffix);
    assert(tail.skip(tail.len() - suffix.len()) =~= suffix);
    assert(tail.take(tail.len() - suffix.len()) =~= name);
    assert(rest.take(owner.len() as int) =~= owner);
    assert forall|i: int| 0 <= i < name.len() implies name[i] != '\n' by {
        assert(name.contains(name[i]));
    }
    lemma_find_is(name, '\n', name.len() as int);
}

/// The repository that the remote address `url` points to, if the address
/// has the shape `git@github.com:OWNER/NAME.git`.
pub fn parse_remote(url: &str) -> (r: Option<RemoteRepository>)
    ensures
        match spec_parse_remote(url@) {
            Some(v) => r matches Some(repository) && repository@ == v,
            None => r is None,
        },
{
    let chars = chars_of(url);
    let all = chars.as_slice();
    if !starts_with_str(all, "git@github.com:") {
        return None;
    }
    let skip = "git@github.com:".unicode_len();
    let rest = slice_subrange(all, skip, all.len());
    assert(rest@ =~= url@.skip(skip as int));
    let slash = find(rest, '/');
    if slash == 0 || slash >= rest.len() {
        return None;
    }
    let tail = slice_subrange(rest, slash + 1, rest.len());
    assert(tail@ =~= rest@.skip(slash + 1));
    let suffix = ".git".unicode_len();
    if tail.len() <= suffix {
        return None;
    }
    let ending = slice_subrange(tail, tail.len() - suffix, tail.len());
    assert(ending@ =~= tail@.skip(tail@.len() - suffix));
    if !starts_with_str(ending, ".git") {
        assert(ending@ != ".git"@);
        return None;
    }
    assert(ending@ =~= ".git"@);
    let name = slice_subrange(tail, 0, tail.len() - suffix);
    assert(name@ =~= tail@.take(tail@.len() - suffix));
    if find(name, '\n') < name.len() {
        return None;
    }
    let owner_span = Span { start: skip, end: skip + slash };
    let name_span = Span { start: skip + slash + 1, end: all.len() - suffix };
    assert(owner_span.of(url@) =~= rest@.take(slash as int));
    assert(name_span.of(url@) =~= name@);
    Some(
        RemoteRepository {
            owner: String::from_str(url.substring_char(owner_span.start, owner_span.end)),
            name: String::from_str(url.substring_char(name_span.start, name_span.end)),
        },
    )
}

} // verus!
