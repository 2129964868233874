use stack::remote::parse_remote;

fn parts(url: &str) -> Option<(String, String)> {
    parse_remote(url).map(|repository| (repository.owner, repository.name))
}

#[test]
fn remote_address_gives_owner_and_name() {
    assert_eq!(
        parts("git@github.com:Coneko/stack.git"),
        Some(("Coneko".to_string(), "stack".to_string()))
    );
    assert_eq!(parts("git@github.com:o/r.git"), Some(("o".to_string(), "r".to_string())));
}

#[test]
fn remote_name_runs_up_to_the_final_suffix() {
    assert_eq!(parts("git@github.com:a/b/c.git"), Some(("a".to_string(), "b/c".to_string())));
    assert_eq!(parts("git@github.com:a/b.git.git"), Some(("a".to_string(), "b.git".to_string())));
    assert_eq!(parts("git@github.com:a/..git"), Some(("a".to_string(), ".".to_string())));
    assert_eq!(parts("git@github.com:ö wner/nä me.git"), Some(("ö wner".to_string(), "nä me".to_string())));
    assert_eq!(parts("git@github.com:a\nb/c.git"), Some(("a\nb".to_string(), "c".to_string())));
}

#[test]
fn other_addresses_are_not_recognized() {
    for url in [
        "",
        "git@github.com:",
        "git@github.com:owner",
        "git@github.com:/stack.git",
        "git@github.com:Coneko/.git",
        "git@github.com:Coneko/stack",
        "git@github.com:Coneko/stack.git/",
        "git@github.com:Coneko/stack.git\n",
        "git@github.com:Coneko/sta\nck.git",
        "git@github.com:Coneko/stack.GIT",
        "git@githubXcom:Coneko/stack.git",
        "git@gitlab.com:Coneko/stack.git",
        " git@github.com:Coneko/stack.git",
        "https://github.com/Coneko/stack.git",
        "ssh://git@github.com/Coneko/stack.git",
        "git@github.com:Coneko.git",
    ] {
        assert_eq!(parts(url), None, "{:?}", url);
    }
}
