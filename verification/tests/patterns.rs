use stack::errors::ParseErrorKind;
use stack::pull_request::resolve;
use stack::remote::parse_remote;

/// The shapes of a pull-request reference as one regular expression, with
/// owner and repository taken literally.
fn reference_pattern(owner: &str, repo: &str) -> regex::Regex {
    let owner = regex::escape(owner);
    let repo = regex::escape(repo);
    let pattern = format!(
        r"^\s*(https://github\.com/{}/{}/pull/|http://github\.com/{0}/{1}/pull/|#)?(?P<pr_number>[0-9]+)\s*$",
        owner, repo,
    );
    regex::Regex::new(&pattern).unwrap()
}

fn by_pattern(pattern: &regex::Regex, token: &str) -> Result<u64, ParseErrorKind> {
    let captures = pattern.captures(token).ok_or(ParseErrorKind::NoMatch)?;
    let number = captures.name("pr_number").ok_or(ParseErrorKind::NoMatch)?.as_str();
    number.parse::<u64>().map_err(|_| ParseErrorKind::NumberOverflow)
}

fn by_library(token: &str, owner: &str, repo: &str) -> Result<u64, ParseErrorKind> {
    resolve(token, owner, repo).map_err(|e| e.kind)
}

const REPOSITORIES: [(&str, &str); 5] =
    [("Coneko", "stack"), ("o", "r"), ("a.b", "c+d"), ("ö", "ré po"), ("x/y", "(z)")];

fn tokens(owner: &str, repo: &str) -> Vec<String> {
    let numbers = [
        "", "0", "1", "007", "42", "18446744073709551615", "18446744073709551616",
        "340282366920938463463374607431768211456", "4x", "x4", "4 2", "-4", "+4", "٤", "4\n5",
    ];
    let prefixes = vec![
        String::new(),
        "#".to_string(),
        "##".to_string(),
        "# ".to_string(),
        format!("https://github.com/{}/{}/pull/", owner, repo),
        format!("http://github.com/{}/{}/pull/", owner, repo),
        format!("HTTPS://github.com/{}/{}/pull/", owner, repo),
        format!("https://github.com/{}/{}/pulls/", owner, repo),
        format!("https://github.com/{}/{}/pull", owner, repo),
        format!("https://githubXcom/{}/{}/pull/", owner, repo),
        format!("https://github.com/{}/{}/pull/", repo, owner),
        format!("https://github.com/{}x/{}/pull/", owner, repo),
        format!("https://github.com/{}/{}/pull/#", owner, repo),
        "https://github.com/Coneko/stack/pull/".to_string(),
        "https://github.com/aXb/c+d/pull/".to_string(),
    ];
    let paddings = [
        ("", ""), (" ", ""), ("", " "), ("\t\n", "\r\n"), ("\u{a0}", "\u{3000}"),
        ("\u{2028}\u{85}", "\u{1680}"), ("\u{200b}", ""), ("", "\u{feff}"), ("x", ""), ("", "."),
    ];
    let mut all = Vec::new();
    for prefix in &prefixes {
        for number in numbers {
            for (before, after) in paddings {
                all.push(format!("{}{}{}{}", before, prefix, number, after));
            }
        }
    }
    all
}

#[test]
fn resolve_agrees_with_the_pattern() {
    let mut accepted = 0;
    let mut overflowed = 0;
    for (owner, repo) in REPOSITORIES {
        let pattern = reference_pattern(owner, repo);
        for token in tokens(owner, repo) {
            let expected = by_pattern(&pattern, &token);
            assert_eq!(by_library(&token, owner, repo), expected, "{:?} for {}/{}", token, owner, repo);
            match expected {
                Ok(_) => accepted += 1,
                Err(ParseErrorKind::NumberOverflow) => overflowed += 1,
                Err(_) => {},
            }
        }
    }
    assert!(accepted > 100);
    assert!(overflowed > 50);
}

fn remote_by_pattern(pattern: &regex::Regex, url: &str) -> Option<(String, String)> {
    let captures = pattern.captures(url)?;
    Some((captures.name("owner")?.as_str().to_string(), captures.name("repo")?.as_str().to_string()))
}

#[test]
fn parse_remote_agrees_with_the_pattern() {
    let heads = ["git@github.com:", "git@githubXcom:", "git@github.com", " git@github.com:", "", "GIT@github.com:"];
    let owners = ["Coneko", "", "a b", "ö", "a\nb", "a.git", "/"];
    let separators = ["/", "", "//", ":"];
    let names = ["stack", "", "a/b", ".git", "x.git", "a\nb", "\n", "né", ".", "a.gi"];
    let tails = [".git", "", ".git\n", ".GIT", ".git.git", ".git/", "git", ".git "];
    let pattern =
        regex::Regex::new(r"^git@github\.com:(?P<owner>[^/]+)/(?P<repo>.+)\.git$").unwrap();
    let mut recognized = 0;
    for head in heads {
        for owner in owners {
            for separator in separators {
                for name in names {
                    for tail in tails {
                        let url = format!("{}{}{}{}{}", head, owner, separator, name, tail);
                        let expected = remote_by_pattern(&pattern, &url);
                        let found = parse_remote(&url).map(|r| (r.owner, r.name));
                        assert_eq!(found, expected, "{:?}", url);
                        if expected.is_some() {
                            recognized += 1;
                        }
                    }
                }
            }
        }
    }
    assert!(recognized > 50);
}
