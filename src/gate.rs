use vstd::prelude::*;

verus! {

/// The invite code that opens registration until invites are kept in storage.
pub const INVITE_CODE: &'static str = "Invite";

/// Whether `code` is an invite that the policy recognises (consumption aside).
pub open spec fn invite_matches(code: Seq<char>) -> bool {
    code == INVITE_CODE@
}

/// Whether a public key meets the key policy. Every key is accepted for now.
pub open spec fn key_acceptable(key: Seq<char>) -> bool {
    true
}

/// Whether `iron::Url::parse` accepts the text: an absolute URL that can be
/// a base and whose scheme has a known port.
pub uninterp spec fn url_parses(s: Seq<char>) -> bool;

/// Relies on `iron::Url::parse`: `Ok` exactly when the text is an absolute
/// URL with a special scheme (such as `http` or `https`).
#[verifier::external_body]
fn url_parse_succeeds(s: &str) -> (r: bool)
    ensures
        r == url_parses(s@),
{
    iron::Url::parse(s).is_ok()
}

/// Whether `code` is the invite code that the policy recognises.
pub fn check_invite(code: &String) -> (r: bool)
    ensures
        r == invite_matches(code@),
{
    let expected = INVITE_CODE.to_string();
    *code == expected
}

/// Whether `key` meets the key policy.
pub fn check_key(key: &String) -> (r: bool)
    ensures
        r == key_acceptable(key@),
{
    true
}

/// Whether `url` is a valid absolute URL that a redirect can go to.
pub fn check_url(url: &String) -> (r: bool)
    ensures
        r == url_parses(url@),
{
    url_parse_succeeds(url.as_str())
}

} // verus!
