use vstd::prelude::*;
use crate::gate::INVITE_CODE;
use crate::models::{IpMapping, RegisterView};
use crate::reply::{Reply, Status, WriteError, decimal, decimal_of};
use crate::store::{RegisterError, ResolveError, StoreView, lemma_lookup_finds_row};
use crate::token::{Token, TokenError, token_id_of};

verus! {

/// The status that answers a token request.
pub open spec fn token_status(r: Result<Token, TokenError>) -> Status {
    if r is Ok {
        Status::Success
    } else {
        Status::InternalError
    }
}

/// The status that answers a redirect lookup.
pub open spec fn redirect_status(r: Result<IpMapping, ResolveError>) -> Status {
    if r is Ok {
        Status::TemporaryRedirect
    } else {
        Status::NotFound
    }
}

/// The status that answers a registration.
pub open spec fn register_status(r: Result<(), RegisterError>) -> Status {
    match r {
        Ok(()) => Status::Success,
        Err(RegisterError::InvalidInvite) => Status::Forbidden,
        Err(RegisterError::InvalidKey) => Status::Forbidden,
        Err(RegisterError::InvalidUrl) => Status::BadRequest,
    }
}

/// The answer to a token request: the id in decimal, or an internal error.
pub fn token_reply(r: &Result<Token, TokenError>) -> (out: Reply)
    requires
        r matches Ok(t) ==> t.id >= 0,
    ensures
        out.status == token_status(*r),
        r matches Ok(t) ==> out.body@ == decimal_of(t.id as nat),
        r matches Err(e) ==> out.body@ == (if e == TokenError::RandomSource {
            "Entropy source unavailable"@
        } else {
            "Failed to issue token"@
        }),
{
    match r {
        Ok(t) => Reply { status: Status::Success, body: decimal(t.id) },
        Err(TokenError::RandomSource) => Reply {
            status: Status::InternalError,
            body: "Entropy source unavailable".to_string(),
        },
        Err(TokenError::Collision) => Reply {
            status: Status::InternalError,
            body: "Failed to issue token".to_string(),
        },
    }
}

/// The answer to a redirect lookup: a temporary redirect to the mapping's
/// host and port, which the server writes into the request's URL, or
/// `NotFound`.
pub fn redirect_reply(r: &Result<IpMapping, ResolveError>) -> (out: Reply)
    ensures
        out.status == redirect_status(*r),
        r is Ok ==> out.body@ == Seq::<char>::empty(),
        r is Err ==> out.body@ == "No mapping found for this address"@,
{
    match r {
        Ok(_) => Reply { status: Status::TemporaryRedirect, body: String::new() },
        Err(_) => Reply {
            status: Status::NotFound,
            body: "No mapping found for this address".to_string(),
        },
    }
}

/// The answer to a registration.
pub fn register_reply(r: &Result<(), RegisterError>) -> (out: Reply)
    ensures
        out.status == register_status(*r),
        out.body@ == match *r {
            Ok(()) => "Created user"@,
            Err(RegisterError::InvalidInvite) => "Invalid Invite Code"@,
            Err(RegisterError::InvalidKey) => "Invalid Key"@,
            Err(RegisterError::InvalidUrl) => "Invalid Url"@,
        },
{
    match r {
        Ok(()) => Reply { status: Status::Success, body: "Created user".to_string() },
        Err(RegisterError::InvalidInvite) => Reply {
            status: Status::Forbidden,
            body: "Invalid Invite Code".to_string(),
        },
        Err(RegisterError::InvalidKey) => Reply {
            status: Status::Forbidden,
            body: "Invalid Key".to_string(),
        },
        Err(RegisterError::InvalidUrl) => Reply {
            status: Status::BadRequest,
            body: "Invalid Url".to_string(),
        },
    }
}

/// The answer to a token request once the token's insert was reported.
pub fn token_settled_reply(token: Token, written: Result<(), WriteError>) -> (out: Reply)
    requires
        token.id >= 0,
    ensures
        out.status == (if written is Ok {
            Status::Success
        } else {
            Status::InternalError
        }),
        out.body@ == match written {
            Ok(()) => decimal_of(token.id as nat),
            Err(WriteError::RowCount) => "Failed to insert token into DB"@,
            Err(WriteError::Storage) => "Storage failure"@,
        },
{
    match written {
        Ok(()) => Reply { status: Status::Success, body: decimal(token.id) },
        Err(WriteError::RowCount) => Reply {
            status: Status::InternalError,
            body: "Failed to insert token into DB".to_string(),
        },
        Err(WriteError::Storage) => Reply {
            status: Status::InternalError,
            body: "Storage failure".to_string(),
        },
    }
}

/// The answer to an accepted registration once the user's insert was
/// reported.
pub fn registration_settled_reply(written: Result<(), WriteError>) -> (out: Reply)
    ensures
        out.status == (if written is Ok {
            Status::Success
        } else {
            Status::InternalError
        }),
        out.body@ == match written {
            Ok(()) => "Created user"@,
            Err(WriteError::RowCount) => "Failed to create new user"@,
            Err(WriteError::Storage) => "Storage failure"@,
        },
{
    match written {
        Ok(()) => Reply { status: Status::Success, body: "Created user".to_string() },
        Err(WriteError::RowCount) => Reply {
            status: Status::InternalError,
            body: "Failed to create new user".to_string(),
        },
        Err(WriteError::Storage) => Reply {
            status: Status::InternalError,
            body: "Storage failure".to_string(),
        },
    }
}

/// The answer to a registration request that carried no body.
pub fn missing_body_reply() -> (out: Reply)
    ensures
        out.status == Status::NoContent,
        out.body@ == "No Content Provided"@,
{
    Reply { status: Status::NoContent, body: "No Content Provided".to_string() }
}

/// Every stored mapping is found again by its public IP: the lookup
/// answers with the mapping's own host and port, as a temporary redirect.
pub proof fn lemma_stored_mapping_resolves(
    s: StoreView,
    i: int,
    r: Result<IpMapping, ResolveError>,
)
    requires
        s.wf(),
        0 <= i < s.redirects.len(),
        s.resolves_to(s.redirects[i].public_ip, r),
    ensures
        r is Ok,
        r->Ok_0.ip@ == s.redirects[i].internal_host,
        r->Ok_0.port == s.redirects[i].internal_port as i32,
        redirect_status(r) == Status::TemporaryRedirect,
{
    lemma_lookup_finds_row(s, i);
}

/// An IP without a mapping is answered as not found, never as an internal
/// error.
pub proof fn lemma_unmapped_ip_not_found(
    s: StoreView,
    ip: Seq<char>,
    r: Result<IpMapping, ResolveError>,
)
    requires
        forall|i: int| 0 <= i < s.redirects.len() ==> #[trigger] s.redirects[i].public_ip != ip,
        s.resolves_to(ip, r),
    ensures
        r == Err::<IpMapping, ResolveError>(ResolveError::NotFound),
        redirect_status(r) == Status::NotFound,
        redirect_status(r) != Status::InternalError,
{
}

/// A token's id is a function of its own draw alone: whatever the store
/// held and whatever the time, two issues from the same draw give the same
/// id, and from draws of different size give different ids.
pub proof fn lemma_token_id_from_draw_alone(
    s1: StoreView,
    s2: StoreView,
    d1: i64,
    d2: i64,
    now1: i64,
    now2: i64,
)
    requires
        s1.token_outcome(Some(d1), now1) is Ok,
        s2.token_outcome(Some(d2), now2) is Ok,
    ensures
        s1.token_outcome(Some(d1), now1)->Ok_0.id == token_id_of(d1),
        s2.token_outcome(Some(d2), now2)->Ok_0.id == token_id_of(d2),
        d1 == d2 ==> s1.token_outcome(Some(d1), now1)->Ok_0.id == s2.token_outcome(
            Some(d2),
            now2,
        )->Ok_0.id,
        d1 != i64::MIN && d2 != i64::MIN && d1 != d2 && d1 != -d2 ==> s1.token_outcome(
            Some(d1),
            now1,
        )->Ok_0.id != s2.token_outcome(Some(d2), now2)->Ok_0.id,
{
}

/// A token id made from any draw is non-negative.
pub proof fn lemma_token_id_non_negative(draw: i64)
    ensures
        token_id_of(draw) >= 0,
{
}

/// An invite admits exactly one registration: on a store that has not
/// consumed it, the recognised invite with a URL that parses is accepted;
/// after that, every registration with the same code is refused as an
/// invalid invite, whatever its key and URL.
pub proof fn lemma_invite_admits_one_registration(
    s: StoreView,
    first: RegisterView,
    second: RegisterView,
    now: i64,
    second_url_ok: bool,
)
    requires
        first.invite == INVITE_CODE@,
        !s.consumed.contains(first.invite),
        second.invite == first.invite,
    ensures
        s.registration_outcome(first, true) == Ok::<(), RegisterError>(()),
        s.registered(first, now).registration_outcome(second, second_url_ok) == Err::<
            (),
            RegisterError,
        >(RegisterError::InvalidInvite),
{
    let after = s.registered(first, now);
    assert(after.consumed[after.consumed.len() - 1] == second.invite);
}

/// The store after registrations taken one after another, each with a URL
/// that parses and recorded at `now`.
pub open spec fn register_all(s: StoreView, regs: Seq<RegisterView>, now: i64) -> StoreView
    decreases regs.len(),
{
    if regs.len() == 0 {
        s
    } else {
        let next = if s.registration_outcome(regs[0], true) is Ok {
            s.registered(regs[0], now)
        } else {
            s
        };
        register_all(next, regs.drop_first(), now)
    }
}

/// Once an invite is not available, registrations with it change nothing.
pub proof fn lemma_spent_invite_changes_nothing(
    s: StoreView,
    regs: Seq<RegisterView>,
    code: Seq<char>,
    now: i64,
)
    requires
        !s.invite_available(code),
        forall|k: int| 0 <= k < regs.len() ==> #[trigger] regs[k].invite == code,
    ensures
        register_all(s, regs, now) == s,
    decreases regs.len(),
{
    if regs.len() > 0 {
        let rest = regs.drop_first();
        assert forall|k: int| 0 <= k < rest.len() implies #[trigger] rest[k].invite == code by {
            assert(rest[k] == regs[k + 1]);
        }
        lemma_spent_invite_changes_nothing(s, rest, code, now);
    }
}

/// Of any number of registrations with one available invite, taken one
/// after another, exactly one is accepted: one user is added and the invite
/// is consumed.
pub proof fn lemma_one_invite_one_user(
    s: StoreView,
    regs: Seq<RegisterView>,
    code: Seq<char>,
    now: i64,
)
    requires
        s.invite_available(code),
        regs.len() > 0,
        forall|k: int| 0 <= k < regs.len() ==> #[trigger] regs[k].invite == code,
    ensures
        register_all(s, regs, now).users.len() == s.users.len() + 1,
        register_all(s, regs, now).consumed == s.consumed.push(code),
{
    assert(regs[0].invite == code);
    let next = s.registered(regs[0], now);
    assert(next.consumed[next.consumed.len() - 1] == code);
    let rest = regs.drop_first();
    assert forall|k: int| 0 <= k < rest.len() implies #[trigger] rest[k].invite == code by {
        assert(rest[k] == regs[k + 1]);
    }
    lemma_spent_invite_changes_nothing(next, rest, code, now);
}

/// Once the invite has passed, a URL that does not parse is refused as a
/// bad request.
pub proof fn lemma_malformed_url_is_bad_request(s: StoreView, reg: RegisterView, url_ok: bool)
    requires
        s.invite_available(reg.invite),
        !url_ok,
    ensures
        s.registration_outcome(reg, url_ok) == Err::<(), RegisterError>(RegisterError::InvalidUrl),
        register_status(s.registration_outcome(reg, url_ok)) == Status::BadRequest,
{
}

/// An invite that is not available decides a registration alone: the key
/// and the URL make no difference to the answer.
pub proof fn lemma_invalid_invite_decides_alone(
    s: StoreView,
    reg: RegisterView,
    other_key: Seq<char>,
    url_ok: bool,
    other_url_ok: bool,
)
    requires
        !s.invite_available(reg.invite),
    ensures
        s.registration_outcome(reg, url_ok) == Err::<(), RegisterError>(RegisterError::InvalidInvite),
        s.registration_outcome(RegisterView { key: other_key, ..reg }, other_url_ok)
            == s.registration_outcome(reg, url_ok),
        register_status(s.registration_outcome(reg, url_ok)) == Status::Forbidden,
{
}

} // verus!
