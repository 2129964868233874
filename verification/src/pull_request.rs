//! Pull-request references: the shapes in which a pull request of one
//! repository may be written, and the number that each stands for.
use crate::errors::{ParseError, ParseErrorKind, ParseErrorView};
use crate::text::{
    chars_of, spans_fit, spans_of, spec_is_whitespace, spec_split, spec_trim, split, starts_with,
    starts_with_str, trim, Span,
};
use vstd::prelude::*;
use vstd::slice::{slice_subrange, slice_to_vec};
use vstd::string::{StrSliceExecFns, StringExecFns};

verus! {

/// Whether `c` is one of the ten decimal digits.
pub open spec fn spec_is_digit(c: char) -> bool {
    '0' <= c <= '9'
}

/// Whether `s` holds decimal digits only.
pub open spec fn spec_all_digits(s: Seq<char>) -> bool {
    forall|i: int| 0 <= i < s.len() ==> spec_is_digit(#[trigger] s[i])
}

/// The number that the decimal digit `c` stands for.
pub open spec fn spec_digit_value(c: char) -> nat {
    (c as u32 - '0' as u32) as nat
}

/// The number that a sequence of decimal digits stands for; leading zeros
/// count for nothing.
pub open spec fn spec_decimal_value(s: Seq<char>) -> nat
    decreases s.len(),
{
    if s.len() == 0 {
        0
    } else {
        spec_decimal_value(s.drop_last()) * 10 + spec_digit_value(s.last())
    }
}

/// The decimal digit for a number below ten.
pub open spec fn spec_digit_char(d: nat) -> char {
    if d == 0 {
        '0'
    } else if d == 1 {
        '1'
    } else if d == 2 {
        '2'
    } else if d == 3 {
        '3'
    } else if d == 4 {
        '4'
    } else if d == 5 {
        '5'
    } else if d == 6 {
        '6'
    } else if d == 7 {
        '7'
    } else if d == 8 {
        '8'
    } else {
        '9'
    }
}

/// The decimal digits of `n`, without leading zeros.
pub open spec fn spec_decimal(n: nat) -> Seq<char>
    decreases n,
{
    if n < 10 {
        seq![spec_digit_char(n)]
    } else {
        spec_decimal(n / 10).push(spec_digit_char(n % 10))
    }
}

/// What stands before the number in the address of a pull request of the
/// repository `owner`/`repo`, with `scheme` being `http` or `https`.
pub open spec fn spec_url_prefix(scheme: Seq<char>, owner: Seq<char>, repo: Seq<char>) -> Seq<
    char,
> {
    scheme + "://github.com/"@ + owner + "/"@ + repo + "/pull/"@
}

/// The canonical address of pull request `number` of `owner`/`repo`.
pub open spec fn spec_canonical_url(owner: Seq<char>, repo: Seq<char>, number: nat) -> Seq<char> {
    spec_url_prefix("https"@, owner, repo) + spec_decimal(number)
}

/// What is left of a trimmed reference once the part that may stand before
/// the number is taken away: the `https` or `http` address of the
/// repository's pull requests, or a `#`, or nothing.
pub open spec fn spec_number_part(t: Seq<char>, owner: Seq<char>, repo: Seq<char>) -> Seq<char> {
    let https = spec_url_prefix("https"@, owner, repo);
    let http = spec_url_prefix("http"@, owner, repo);
    if https.is_prefix_of(t) {
        t.skip(https.len() as int)
    } else if http.is_prefix_of(t) {
        t.skip(http.len() as int)
    } else if "#"@.is_prefix_of(t) {
        t.skip("#"@.len() as int)
    } else {
        t
    }
}

/// The number that a sequence of characters stands for when it is read as
/// a decimal number of at most 64 bits.
pub open spec fn spec_parse_number(digits: Seq<char>) -> Result<u64, ParseErrorKind> {
    if digits.len() == 0 || !spec_all_digits(digits) {
        Err(ParseErrorKind::NoMatch)
    } else if spec_decimal_value(digits) > u64::MAX {
        Err(ParseErrorKind::NumberOverflow)
    } else {
        Ok(spec_decimal_value(digits) as u64)
    }
}

/// The pull request of `owner`/`repo` that `token` refers to. Whitespace
/// around the reference is ignored. The reference is a decimal number,
/// alone, after `#`, or at the end of the `http` or `https` address of a
/// pull request of exactly this repository.
pub open spec fn spec_resolve(token: Seq<char>, owner: Seq<char>, repo: Seq<char>) -> Result<
    u64,
    ParseErrorKind,
> {
    spec_parse_number(spec_number_part(spec_trim(token), owner, repo))
}

/// A reference that did not resolve, and why.
pub struct Unresolved {
    pub kind: ParseErrorKind,
    pub token: Seq<char>,
}

/// The pull requests that a sequence of references stands for, in order; or
/// the first reference that does not resolve.
pub open spec fn spec_resolve_all(tokens: Seq<Seq<char>>, owner: Seq<char>, repo: Seq<char>) -> Result<
    Seq<u64>,
    Unresolved,
>
    decreases tokens.len(),
{
    if tokens.len() == 0 {
        Ok(Seq::empty())
    } else {
        match spec_resolve_all(tokens.drop_last(), owner, repo) {
            Err(e) => Err(e),
            Ok(ids) => match spec_resolve(tokens.last(), owner, repo) {
                Err(kind) => Err(Unresolved { kind, token: tokens.last() }),
                Ok(id) => Ok(ids.push(id)),
            },
        }
    }
}

/// The pull requests that a comma-separated list of references stands for.
pub open spec fn spec_resolve_list(list: Seq<char>, owner: Seq<char>, repo: Seq<char>) -> Result<
    Seq<u64>,
    Unresolved,
> {
    spec_resolve_all(spec_split(list, ','), owner, repo)
}

/// The value of a prefix of a digit sequence is at most the value of the
/// whole.
pub proof fn lemma_decimal_value_prefix(s: Seq<char>, k: int)
    requires
        0 <= k <= s.len(),
    ensures
        spec_decimal_value(s.take(k)) <= spec_decimal_value(s),
    decreases s.len() - k,
{
    if k == s.len() {
        assert(s.take(k) =~= s);
    } else {
        lemma_decimal_value_prefix(s, k + 1);
        assert(s.take(k + 1).drop_last() =~= s.take(k));
    }
}

/// The decimal digits of a number are digits, at least one, and stand for
/// that number.
pub proof fn lemma_decimal_round_trip(n: nat)
    ensures
        spec_decimal(n).len() >= 1,
        spec_all_digits(spec_decimal(n)),
        spec_decimal_value(spec_decimal(n)) == n,
    decreases n,
{
    if n < 10 {
        let s = spec_decimal(n);
        assert(s.drop_last() =~= Seq::<char>::empty());
        assert(spec_decimal_value(s) == spec_decimal_value(s.drop_last()) * 10 + spec_digit_value(
            s.last(),
        ));
    } else {
        lemma_decimal_round_trip(n / 10);
        let s = spec_decimal(n);
        assert(s.drop_last() =~= spec_decimal(n / 10));
        assert forall|i: int| 0 <= i < s.len() implies spec_is_digit(#[trigger] s[i]) by {
            if i < s.len() - 1 {
                assert(s[i] == spec_decimal(n / 10)[i]);
            }
        }
    }
}

/// Trimming leaves alone what neither begins nor ends with whitespace.
pub proof fn lemma_trim_nothing(s: Seq<char>)
    requires
        s.len() > 0,
        !spec_is_whitespace(s[0]),
        !spec_is_whitespace(s.last()),
    ensures
        spec_trim(s) == s,
{
}

/// Every accepted way of writing pull request `n` of `owner`/`repo` resolves
/// to `n`: the bare number, the number after `#`, and the `https` and the
/// `http` address of the pull request. In particular the canonical address
/// resolves to the number it was made from.
pub proof fn lemma_accepted_shapes(owner: Seq<char>, repo: Seq<char>, n: u64)
    ensures
        spec_resolve(spec_decimal(n as nat), owner, repo) == Ok::<u64, ParseErrorKind>(n),
        spec_resolve("#"@ + spec_decimal(n as nat), owner, repo) == Ok::<u64, ParseErrorKind>(n),
        spec_resolve(spec_canonical_url(owner, repo, n as nat), owner, repo) == Ok::<
            u64,
            ParseErrorKind,
        >(n),
        spec_resolve(spec_url_prefix("http"@, owner, repo) + spec_decimal(n as nat), owner, repo)
            == Ok::<u64, ParseErrorKind>(n),
{
    let digits = spec_decimal(n as nat);
    let https = spec_url_prefix("https"@, owner, repo);
    let http = spec_url_prefix("http"@, owner, repo);
    lemma_decimal_round_trip(n as nat);
    reveal_strlit("https");
    reveal_strlit("http");
    reveal_strlit("#");
    reveal_strlit("://github.com/");
    assert(spec_is_digit(digits[0]) && spec_is_digit(digits.last()));
    assert(https[0] == 'h' && http[0] == 'h');
    assert(https[4] == 's' && http[4] == ':');

    assert(spec_number_part(digits, owner, repo) == digits);
    lemma_trim_nothing(digits);

    let hashed = "#"@ + digits;
    assert(hashed.skip(1) =~= digits);
    assert("#"@ =~= hashed.subrange(0, 1));
    lemma_trim_nothing(hashed);

    let secure = https + digits;
    assert(secure.skip(https.len() as int) =~= digits);
    assert(https =~= secure.subrange(0, https.len() as int));
    lemma_trim_nothing(secure);

    let plain = http + digits;
    assert(plain.skip(http.len() as int) =~= digits);
    assert(http =~= plain.subrange(0, http.len() as int));
    assert(plain[4] == ':');
    lemma_trim_nothing(plain);
}

/// Whether `c` is one of the ten decimal digits.
pub fn is_digit(c: char) -> (b: bool)
    ensures
        b == spec_is_digit(c),
{
    '0' <= c && c <= '9'
}

/// Reads `digits` as a decimal number of at most 64 bits.
pub fn parse_number(digits: &[char]) -> (r: Result<u64, ParseErrorKind>)
    ensures
        r == spec_parse_number(digits@),
{
    let n = digits.len();
    if n == 0 {
        return Err(ParseErrorKind::NoMatch);
    }
    let mut i: usize = 0;
    while i < n
        invariant
            i <= n == digits@.len(),
            forall|j: int| 0 <= j < i ==> spec_is_digit(#[trigger] digits@[j]),
        decreases n - i,
    {
        if !is_digit(digits[i]) {
            return Err(ParseErrorKind::NoMatch);
        }
        i += 1;
    }
    let mut value: u64 = 0;
    let mut k: usize = 0;
    while k < n
        invariant
            k <= n == digits@.len(),
            spec_all_digits(digits@),
            value == spec_decimal_value(digits@.take(k as int)),
        decreases n - k,
    {
        let c = digits[k];
        assert(spec_is_digit(digits@[k as int]));
        let d: u64 = (c as u32 - '0' as u32) as u64;
        proof {
            assert(digits@.take(k + 1).drop_last() =~= digits@.take(k as int));
            lemma_decimal_value_prefix(digits@, k + 1);
        }
        if value > (u64::MAX - d) / 10 {
            return Err(ParseErrorKind::NumberOverflow);
        }
        value = value * 10 + d;
        k += 1;
    }
    assert(digits@.take(n as int) =~= digits@);
    Ok(value)
}

/// An error in reading a list stays the error of every longer list.
pub proof fn lemma_resolve_all_fails(
    tokens: Seq<Seq<char>>,
    owner: Seq<char>,
    repo: Seq<char>,
    k: int,
)
    requires
        0 <= k <= tokens.len(),
        spec_resolve_all(tokens.take(k), owner, repo) is Err,
    ensures
        spec_resolve_all(tokens, owner, repo) == spec_resolve_all(tokens.take(k), owner, repo),
    decreases tokens.len() - k,
{
    if k == tokens.len() {
        assert(tokens.take(k) =~= tokens);
    } else {
        assert(tokens.take(k + 1).drop_last() =~= tokens.take(k));
        lemma_resolve_all_fails(tokens, owner, repo, k + 1);
    }
}

/// The characters that stand before the number in the address of a pull
/// request of `owner`/`repo`.
fn url_prefix(scheme: &str, owner: &[char], repo: &[char]) -> (v: Vec<char>)
    ensures
        v@ == spec_url_prefix(scheme@, owner@, repo@),
{
    let mut v = chars_of(scheme);
    let mut host = chars_of("://github.com/");
    v.append(&mut host);
    let mut part = slice_to_vec(owner);
    v.append(&mut part);
    let mut slash = chars_of("/");
    v.append(&mut slash);
    let mut part = slice_to_vec(repo);
    v.append(&mut part);
    let mut pull = chars_of("/pull/");
    v.append(&mut pull);
    v
}

/// The pull request of `owner`/`repo` that `token` refers to.
pub fn resolve_chars(token: &[char], owner: &[char], repo: &[char]) -> (r: Result<
    u64,
    ParseErrorKind,
>)
    ensures
        r == spec_resolve(token@, owner@, repo@),
{
    let t = trim(token);
    let https = url_prefix("https", owner, repo);
    let http = url_prefix("http", owner, repo);
    let skipped = if starts_with(t, https.as_slice()) {
        https.len()
    } else if starts_with(t, http.as_slice()) {
        http.len()
    } else if starts_with_str(t, "#") {
        "#".unicode_len()
    } else {
        0
    };
    let digits = slice_subrange(t, skipped, t.len());
    assert(digits@ =~= t@.skip(skipped as int));
    assert(t@.skip(0) =~= t@);
    parse_number(digits)
}

/// The pull requests that the comma-separated references of `list` stand
/// for, in order; or why and where the first of them that does not resolve
/// fails.
pub fn resolve_list_chars(list: &[char], owner: &[char], repo: &[char]) -> (r: Result<
    Vec<u64>,
    (ParseErrorKind, Span),
>)
    ensures
        match spec_resolve_list(list@, owner@, repo@) {
            Ok(ids) => r matches Ok(v) && v@ == ids,
            Err(e) => r matches Err((kind, span)) && kind == e.kind && span.fits(list@.len())
                && span.of(list@) == e.token,
        },
{
    let spans = split(list, ',');
    let ghost tokens = spec_split(list@, ',');
    let mut ids: Vec<u64> = Vec::new();
    let mut i: usize = 0;
    assert(tokens.take(0) =~= Seq::empty());
    while i < spans.len()
        invariant
            i <= spans@.len() == tokens.len(),
            spans_fit(spans@, list@.len()),
            spans_of(spans@, list@) == tokens,
            tokens == spec_split(list@, ','),
            spec_resolve_all(tokens.take(i as int), owner@, repo@) == Ok::<Seq<u64>, Unresolved>(
                ids@,
            ),
        decreases spans.len() - i,
    {
        let span = spans[i];
        assert(span.fits(list@.len()));
        assert(span.of(list@) == tokens[i as int]);
        let token = slice_subrange(list, span.start, span.end);
        proof {
            assert(tokens.take(i + 1).drop_last() =~= tokens.take(i as int));
            assert(tokens.take(i + 1).last() == tokens[i as int]);
        }
        match resolve_chars(token, owner, repo) {
            Ok(id) => {
                ids.push(id);
            },
            Err(kind) => {
                proof {
                    assert(spec_resolve_all(tokens.take(i + 1), owner@, repo@) == Err::<
                        Seq<u64>,
                        Unresolved,
                    >(Unresolved { kind, token: tokens[i as int] }));
                    lemma_resolve_all_fails(tokens, owner@, repo@, i + 1);
                }
                return Err((kind, span));
            },
        }
        i += 1;
    }
    assert(tokens.take(i as int) =~= tokens);
    Ok(ids)
}

/// The decimal digit for a number below ten, as a string.
fn digit_str(d: u64) -> (s: &'static str)
    requires
        d < 10,
    ensures
        s@ == seq![spec_digit_char(d as nat)],
{
    proof {
        reveal_strlit("0");
        reveal_strlit("1");
        reveal_strlit("2");
        reveal_strlit("3");
        reveal_strlit("4");
        reveal_strlit("5");
        reveal_strlit("6");
        reveal_strlit("7");
        reveal_strlit("8");
        reveal_strlit("9");
    }
    let s = if d == 0 {
        "0"
    } else if d == 1 {
        "1"
    } else if d == 2 {
        "2"
    } else if d == 3 {
        "3"
    } else if d == 4 {
        "4"
    } else if d == 5 {
        "5"
    } else if d == 6 {
        "6"
    } else if d == 7 {
        "7"
    } else if d == 8 {
        "8"
    } else {
        "9"
    };
    assert(s@ =~= seq![spec_digit_char(d as nat)]);
    s
}

/// The decimal digits of `n`, without leading zeros.
pub fn decimal_string(n: u64) -> (s: String)
    ensures
        s@ == spec_decimal(n as nat),
    decreases n,
{
    if n < 10 {
        String::from_str(digit_str(n))
    } else {
        let mut s = decimal_string(n / 10);
        s.append(digit_str(n % 10));
        assert(s@ =~= spec_decimal(n as nat / 10).push(spec_digit_char(n as nat % 10)));
        s
    }
}

/// The canonical address of pull request `number` of `owner`/`repo`.
pub fn canonical_url(owner: &str, repo: &str, number: u64) -> (url: String)
    ensures
        url@ == spec_canonical_url(owner@, repo@, number as nat),
{
    let mut url = String::from_str("https");
    url.append("://github.com/");
    url.append(owner);
    url.append("/");
    url.append(repo);
    url.append("/pull/");
    let digits = decimal_string(number);
    url.append(digits.as_str());
    url
}

/// The pull request of `owner`/`repo` that `token` refers to.
///
/// `token` may be a decimal number, `#` and a decimal number, or the
/// `http` or `https` address of a pull request of exactly this repository;
/// whitespace around it is ignored. Anything else fails with `NoMatch`; a
/// number that does not fit in 64 bits fails with `NumberOverflow`. The error
/// echoes `token`.
pub fn resolve(token: &str, owner: &str, repo: &str) -> (r: Result<u64, ParseError>)
    ensures
        match spec_resolve(token@, owner@, repo@) {
            Ok(id) => r == Ok::<u64, ParseError>(id),
            Err(kind) => r matches Err(e) && e@ == (ParseErrorView {
                kind,
                field: None,
                line: token@,
                text: token@,
            }),
        },
{
    let token_chars = chars_of(token);
    let owner_chars = chars_of(owner);
    let repo_chars = chars_of(repo);
    match resolve_chars(token_chars.as_slice(), owner_chars.as_slice(), repo_chars.as_slice()) {
        Ok(id) => Ok(id),
        Err(kind) => Err(
            ParseError {
                kind,
                field: None,
                line: String::from_str(token),
                text: String::from_str(token),
            },
        ),
    }
}

/// The pull requests of `owner`/`repo` that a comma-separated list of
/// references stands for, in the order of the list.
///
/// Each piece between commas is resolved as `resolve` does. If one of them
/// fails the whole list fails, with the error of the first that does; the
/// error echoes that piece and the whole list.
pub fn resolve_list(list: &str, owner: &str, repo: &str) -> (r: Result<Vec<u64>, ParseError>)
    ensures
        match spec_resolve_list(list@, owner@, repo@) {
            Ok(ids) => r matches Ok(v) && v@ == ids,
            Err(u) => r matches Err(e) && e@ == (ParseErrorView {
                kind: u.kind,
                field: None,
                line: u.token,
                text: list@,
            }),
        },
{
    let list_chars = chars_of(list);
    let owner_chars = chars_of(owner);
    let repo_chars = chars_of(repo);
    match resolve_list_chars(list_chars.as_slice(), owner_chars.as_slice(), repo_chars.as_slice()) {
        Ok(ids) => Ok(ids),
        Err((kind, span)) => Err(
            ParseError {
                kind,
                field: None,
                line: String::from_str(list.substring_char(span.start, span.end)),
                text: String::from_str(list),
            },
        ),
    }
}

} // verus!
