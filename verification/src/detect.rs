//! Pull-request link detection: a message text matches only where the whole
//! text is a well-formed URL whose path is exactly the fixed repository
//! pull-request prefix followed by a nonnegative integer.

use vstd::prelude::*;

use crate::text::{
    dec_chars, has_prefix, is_dec_digit, lemma_dec_chars_props, parse_digits_spec, parse_u64_spec,
    parse_u64_str, str_has_prefix,
};

verus! {

/// What the URL parser yields on a text: the path of the parsed absolute
/// URL, or nothing where the text is not such a URL.
pub uninterp spec fn url_path_of(s: Seq<char>) -> Option<Seq<char>>;

/// Relies on `url::Url::parse`, which parses the whole text as an absolute
/// URL, and `url::Url::path`, which returns the parsed URL's path as a
/// percent-encoded ASCII string; the result is a function of the text alone.
#[verifier::external_body]
fn url_path(text: &str) -> (r: Option<String>)
    ensures
        (r matches Some(p) ==> url_path_of(text@) == Some(p@)),
        (r is None ==> url_path_of(text@) is None),
{
    match url::Url::parse(text) {
        Ok(u) => Some(u.path().to_owned()),
        Err(_) => None,
    }
}

/// The fixed pull-request path prefix of the watched repository.
pub open spec fn pr_path_prefix() -> Seq<char> {
    "/NixOS/nixpkgs/pull/"@
}

/// The PR number a URL path denotes: the path must be exactly the fixed
/// prefix followed by an integer with no trailing characters.
pub open spec fn path_pr_number(p: Seq<char>) -> Option<u64> {
    if has_prefix(p, pr_path_prefix()) {
        parse_u64_spec(p.subrange(pr_path_prefix().len() as int, p.len() as int))
    } else {
        None
    }
}

/// What `detect` returns on a message text.
pub open spec fn detect_spec(text: Seq<char>) -> Option<u64> {
    match url_path_of(text) {
        Some(p) => path_pr_number(p),
        None => None,
    }
}

/// The verified step of detection, on the path the URL parser produced.
pub fn pr_number_of_path(path: &String) -> (r: Option<u64>)
    ensures
        r == path_pr_number(path@),
{
    if !str_has_prefix(path.as_str(), "/NixOS/nixpkgs/pull/") {
        return None;
    }
    let klen: usize = "/NixOS/nixpkgs/pull/".unicode_len();
    let n: usize = path.as_str().unicode_len();
    let rest = path.as_str().substring_char(klen, n);
    parse_u64_str(rest)
}

/// Extracts a pull-request number where the whole text is a matching URL.
pub fn detect(text: &str) -> (r: Option<u64>)
    ensures
        r == detect_spec(text@),
{
    match url_path(text) {
        None => None,
        Some(path) => pr_number_of_path(&path),
    }
}

/// Detection precision: a number is returned exactly when the text parses as
/// a URL whose path is the fixed prefix followed by an integer denoting it;
/// a missing scheme or a malformed URL yields no path, and any extra or
/// non-numeric characters after the prefix fail the integer parse.
pub proof fn lemma_detection_precision(text: Seq<char>, n: u64)
    ensures
        detect_spec(text) == Some(n) <==> (url_path_of(text) matches Some(p) && has_prefix(
            p,
            pr_path_prefix(),
        ) && parse_u64_spec(p.subrange(pr_path_prefix().len() as int, p.len() as int)) == Some(n)),
{
}

/// A path that is exactly the prefix followed by the canonical decimal
/// rendering of `n` is detected as `n`.
pub proof fn lemma_canonical_path_detected(n: u64)
    ensures
        path_pr_number(pr_path_prefix() + dec_chars(n as nat)) == Some(n),
{
    reveal_strlit("/NixOS/nixpkgs/pull/");
    let p = pr_path_prefix() + dec_chars(n as nat);
    lemma_dec_chars_props(n as nat);
    assert(p.subrange(0, pr_path_prefix().len() as int) =~= pr_path_prefix());
    let digits = p.subrange(pr_path_prefix().len() as int, p.len() as int);
    assert(digits =~= dec_chars(n as nat));
    assert(is_dec_digit(digits[0]));
    assert(digits[0] != '+');
    assert(parse_digits_spec(dec_chars(n as nat)) == Some(n));
}

} // verus!
