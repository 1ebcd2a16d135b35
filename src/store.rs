use vstd::prelude::*;
use crate::gate::{check_invite, check_key, check_url, invite_matches, key_acceptable, url_parses};
use crate::models::{IpMapping, Register, RegisterView};
use crate::reply::{WriteError, token_write_outcome, token_write_verdict, user_write_outcome, user_write_verdict};
use crate::token::{Token, TokenError, now_epoch_seconds, os_random_i64, token_from_draw, token_id_of};

verus! {

/// A registrant, identified by the public key it registered with.
#[derive(Debug, Clone)]
pub struct User {
    pub public_key: String,
    pub created_at: i64,
}

pub ghost struct UserView {
    pub public_key: Seq<char>,
    pub created_at: i64,
}

impl View for User {
    type V = UserView;

    open spec fn view(&self) -> UserView {
        UserView { public_key: self.public_key@, created_at: self.created_at }
    }
}

/// The redirect target of one public IP, owned by a registered key.
#[derive(Debug, Clone)]
pub struct RedirectMapping {
    pub public_ip: String,
    pub public_key: String,
    pub internal_host: String,
    pub internal_port: u16,
    pub created_at: i64,
}

pub ghost struct MappingView {
    pub public_ip: Seq<char>,
    pub public_key: Seq<char>,
    pub internal_host: Seq<char>,
    pub internal_port: u16,
    pub created_at: i64,
}

impl View for RedirectMapping {
    type V = MappingView;

    open spec fn view(&self) -> MappingView {
        MappingView {
            public_ip: self.public_ip@,
            public_key: self.public_key@,
            internal_host: self.internal_host@,
            internal_port: self.internal_port,
            created_at: self.created_at,
        }
    }
}

/// Why a caller's IP could not be resolved.
#[derive(Debug, Clone, Copy, PartialEq, Eq, Structural)]
pub enum ResolveError {
    /// No mapping is stored for the IP.
    NotFound,
}

/// Why a mapping could not be added.
#[derive(Debug, Clone, Copy, PartialEq, Eq, Structural)]
pub enum MappingError {
    /// The public IP already has a mapping.
    DuplicateIp,
    /// No user holds the mapping's key.
    UnknownKey,
}

/// Why a registration was refused.
#[derive(Debug, Clone, Copy, PartialEq, Eq, Structural)]
pub enum RegisterError {
    /// The invite code is unknown or already consumed.
    InvalidInvite,
    /// The key does not meet the key policy.
    InvalidKey,
    /// The URL is not a valid absolute URL.
    InvalidUrl,
}

/// The contents of a store, as plain mathematical values.
pub ghost struct StoreView {
    pub tokens: Seq<Token>,
    pub users: Seq<UserView>,
    pub redirects: Seq<MappingView>,
    pub consumed: Seq<Seq<char>>,
}

impl StoreView {
    pub open spec fn has_token(self, id: i64) -> bool {
        exists|i: int| 0 <= i < self.tokens.len() && #[trigger] self.tokens[i].id == id
    }

    pub open spec fn has_user(self, key: Seq<char>) -> bool {
        exists|i: int| 0 <= i < self.users.len() && #[trigger] self.users[i].public_key == key
    }

    pub open spec fn maps_ip(self, ip: Seq<char>) -> bool {
        exists|i: int| 0 <= i < self.redirects.len() && #[trigger] self.redirects[i].public_ip == ip
    }

    /// The mapping stored for `ip`, if any.
    pub open spec fn lookup(self, ip: Seq<char>) -> Option<MappingView> {
        if self.maps_ip(ip) {
            Some(
                self.redirects[choose|i: int|
                    0 <= i < self.redirects.len() && #[trigger] self.redirects[i].public_ip == ip],
            )
        } else {
            None
        }
    }

    /// What issuing a token from a random draw gives: `RandomSource` when the
    /// entropy source gave nothing, `Collision` when the draw's id is held,
    /// else the draw's id stamped with `now`.
    pub open spec fn token_outcome(self, draw: Option<i64>, now: i64) -> Result<Token, TokenError> {
        match draw {
            None => Err(TokenError::RandomSource),
            Some(d) => if self.has_token(token_id_of(d)) {
                Err(TokenError::Collision)
            } else {
                Ok(Token { id: token_id_of(d), issued_at: now })
            },
        }
    }

    /// Whether `r` is what a lookup of `ip` answers: the host and port of
    /// the mapping stored for it, or `NotFound` when there is none.
    pub open spec fn resolves_to(self, ip: Seq<char>, r: Result<IpMapping, ResolveError>) -> bool {
        match self.lookup(ip) {
            Some(m) => r is Ok && r->Ok_0.ip@ == m.internal_host && r->Ok_0.port
                == m.internal_port as i32,
            None => r == Err::<IpMapping, ResolveError>(ResolveError::NotFound),
        }
    }

    /// Whether `code` is recognised and not yet consumed.
    pub open spec fn invite_available(self, code: Seq<char>) -> bool {
        invite_matches(code) && !self.consumed.contains(code)
    }

    /// The verdict on a registration, checks taken in order: invite, key, URL.
    pub open spec fn registration_outcome(self, reg: RegisterView, url_ok: bool) -> Result<
        (),
        RegisterError,
    > {
        if !self.invite_available(reg.invite) {
            Err(RegisterError::InvalidInvite)
        } else if !key_acceptable(reg.key) {
            Err(RegisterError::InvalidKey)
        } else if !url_ok {
            Err(RegisterError::InvalidUrl)
        } else {
            Ok(())
        }
    }

    /// The store after an accepted registration: the invite is consumed and
    /// the user recorded, in one step.
    pub open spec fn registered(self, reg: RegisterView, now: i64) -> StoreView {
        StoreView {
            consumed: self.consumed.push(reg.invite),
            users: self.users.push(UserView { public_key: reg.key, created_at: now }),
            ..self
        }
    }

    /// Token ids are non-negative and distinct; a public IP has at most one
    /// mapping; every mapping belongs to a registered user.
    pub open spec fn wf(self) -> bool {
        &&& forall|i: int| 0 <= i < self.tokens.len() ==> #[trigger] self.tokens[i].id >= 0
        &&& forall|i: int, j: int|
            0 <= i < j < self.tokens.len() ==> #[trigger] self.tokens[i].id
                != #[trigger] self.tokens[j].id
        &&& forall|i: int, j: int|
            0 <= i < j < self.redirects.len() ==> #[trigger] self.redirects[i].public_ip
                != #[trigger] self.redirects[j].public_ip
        &&& forall|i: int|
            0 <= i < self.redirects.len() ==> self.has_user(#[trigger] self.redirects[i].public_key)
    }
}

/// In a valid store, the lookup of a stored mapping's public IP finds that
/// very mapping: no other row has the IP.
pub proof fn lemma_lookup_finds_row(s: StoreView, i: int)
    requires
        s.wf(),
        0 <= i < s.redirects.len(),
    ensures
        s.lookup(s.redirects[i].public_ip) == Some(s.redirects[i]),
{
    let ip = s.redirects[i].public_ip;
    assert(s.maps_ip(ip));
    let j = choose|j: int| 0 <= j < s.redirects.len() && #[trigger] s.redirects[j].public_ip == ip;
    if j < i {
        assert(s.redirects[j].public_ip != s.redirects[i].public_ip);
    } else if j > i {
        assert(s.redirects[i].public_ip != s.redirects[j].public_ip);
    }
}

/// Adding users keeps every mapping's owner registered.
proof fn lemma_owners_kept(before: StoreView, after: StoreView)
    requires
        forall|i: int|
            0 <= i < before.redirects.len() ==> before.has_user(#[trigger] before.redirects[i].public_key),
        after.redirects == before.redirects,
        before.users.len() <= after.users.len(),
        forall|k: int| 0 <= k < before.users.len() ==> #[trigger] after.users[k] == before.users[k],
    ensures
        forall|i: int|
            0 <= i < after.redirects.len() ==> after.has_user(#[trigger] after.redirects[i].public_key),
{
    assert forall|i: int| 0 <= i < after.redirects.len() implies after.has_user(
        #[trigger] after.redirects[i].public_key,
    ) by {
        let key = before.redirects[i].public_key;
        let k = choose|k: int| 0 <= k < before.users.len() && #[trigger] before.users[k].public_key == key;
        assert(after.users[k] == before.users[k]);
    }
}

/// Tokens, users, redirect mappings and consumed invites.
#[derive(Debug, Clone)]
pub struct Store {
    tokens: Vec<Token>,
    users: Vec<User>,
    redirects: Vec<RedirectMapping>,
    consumed_invites: Vec<String>,
}

impl View for Store {
    type V = StoreView;

    closed spec fn view(&self) -> StoreView {
        StoreView {
            tokens: self.tokens@,
            users: self.users@.map_values(|u: User| u@),
            redirects: self.redirects@.map_values(|m: RedirectMapping| m@),
            consumed: self.consumed_invites@.map_values(|s: String| s@),
        }
    }
}

impl Store {
    pub open spec fn wf(&self) -> bool {
        self@.wf()
    }

    /// An empty store.
    pub fn new() -> (r: Store)
        ensures
            r.wf(),
            r@.tokens.len() == 0,
            r@.users.len() == 0,
            r@.redirects.len() == 0,
            r@.consumed.len() == 0,
    {
        Store { tokens: Vec::new(), users: Vec::new(), redirects: Vec::new(), consumed_invites: Vec::new() }
    }

    /// The issued tokens, oldest first.
    pub fn tokens(&self) -> (r: &[Token])
        ensures
            r@ == self@.tokens,
    {
        self.tokens.as_slice()
    }

    /// The registered users, oldest first.
    pub fn users(&self) -> (r: &[User])
        ensures
            r@.map_values(|u: User| u@) == self@.users,
    {
        self.users.as_slice()
    }

    /// Whether a token with this id has been issued.
    pub fn contains_token(&self, id: i64) -> (r: bool)
        ensures
            r == self@.has_token(id),
    {
        let mut i: usize = 0;
        while i < self.tokens.len()
            invariant
                i <= self.tokens.len(),
                forall|k: int| 0 <= k < i ==> self.tokens@[k].id != id,
            decreases self.tokens.len() - i,
        {
            if self.tokens[i].id == id {
                assert(self@.tokens[i as int].id == id);
                return true;
            }
            i = i + 1;
        }
        false
    }

    /// Records a token made from a random draw, issued at `now`; a draw
    /// whose id is already held is refused and the store is left unchanged.
    pub fn issue_token(&mut self, draw: i64, now: i64) -> (r: Result<Token, TokenError>)
        requires
            old(self).wf(),
        ensures
            final(self).wf(),
            old(self)@.has_token(token_id_of(draw)) ==> r == Err::<Token, TokenError>(TokenError::Collision)
                && final(self)@ == old(self)@,
            !old(self)@.has_token(token_id_of(draw)) ==> r == Ok::<Token, TokenError>(
                Token { id: token_id_of(draw), issued_at: now },
            ) && final(self)@ == (StoreView {
                tokens: old(self)@.tokens.push(Token { id: token_id_of(draw), issued_at: now }),
                ..old(self)@
            }),
    {
        let id = token_from_draw(draw);
        if self.contains_token(id) {
            return Err(TokenError::Collision);
        }
        let token = Token { id, issued_at: now };
        self.tokens.push(token);
        assert(final(self)@.users =~= old(self)@.users);
        assert(final(self)@.redirects =~= old(self)@.redirects);
        assert(final(self)@.consumed =~= old(self)@.consumed);
        Ok(token)
    }

    /// The token a draw gives, without recording it: see `token_outcome`.
    pub fn token_for_draw(&self, draw: Option<i64>, now: i64) -> (r: Result<Token, TokenError>)
        requires
            self.wf(),
        ensures
            r == self@.token_outcome(draw, now),
    {
        match draw {
            None => Err(TokenError::RandomSource),
            Some(d) => {
                let id = token_from_draw(d);
                if self.contains_token(id) {
                    Err(TokenError::Collision)
                } else {
                    Ok(Token { id, issued_at: now })
                }
            },
        }
    }

    /// Draws from the operating system's entropy source and reads the clock,
    /// without recording anything. The result is the `token_outcome` of
    /// whatever draw and time came back, so an id handed out is the draw's
    /// own, non-negative and not held by the store.
    pub fn draw_token(&self) -> (r: Result<Token, TokenError>)
        requires
            self.wf(),
        ensures
            exists|draw: Option<i64>, now: i64| r == self@.token_outcome(draw, now),
            r matches Ok(t) ==> t.id >= 0 && !self@.has_token(t.id),
    {
        let draw = match os_random_i64() {
            Ok(d) => Some(d),
            Err(_) => None,
        };
        let now = now_epoch_seconds();
        self.token_for_draw(draw, now)
    }

    /// Records a drawn token once the database has reported its insert:
    /// the token is kept exactly when the insert took.
    pub fn settle_token(&mut self, token: Token, affected: Result<usize, ()>) -> (r: Result<
        (),
        WriteError,
    >)
        requires
            old(self).wf(),
            token.id >= 0,
            !old(self)@.has_token(token.id),
        ensures
            final(self).wf(),
            r == token_write_verdict(affected),
            r is Ok ==> final(self)@ == (StoreView {
                tokens: old(self)@.tokens.push(token),
                ..old(self)@
            }),
            r is Err ==> final(self)@ == old(self)@,
    {
        let verdict = token_write_outcome(affected);
        if verdict.is_ok() {
            let issued = self.issue_token(token.id, token.issued_at);
            assert(issued is Ok);
        }
        verdict
    }

    /// Issues a token from the operating system's entropy source, stamped
    /// with the current time, and records it. The result is the
    /// `token_outcome` of whatever draw and time came back; an issued token
    /// is added to the store, and a failure leaves it unchanged.
    pub fn issue_random_token(&mut self) -> (r: Result<Token, TokenError>)
        requires
            old(self).wf(),
        ensures
            final(self).wf(),
            exists|draw: Option<i64>, now: i64| r == old(self)@.token_outcome(draw, now),
            r matches Ok(t) ==> t.id >= 0 && !old(self)@.has_token(t.id) && final(self)@
                == (StoreView { tokens: old(self)@.tokens.push(t), ..old(self)@ }),
            r is Err ==> final(self)@ == old(self)@,
    {
        let now = now_epoch_seconds();
        match os_random_i64() {
            Ok(draw) => {
                let r = self.issue_token(draw, now);
                assert(r == old(self)@.token_outcome(Some(draw), now));
                r
            },
            Err(_) => {
                assert(old(self)@.token_outcome(None, now) == Err::<Token, TokenError>(
                    TokenError::RandomSource,
                ));
                Err(TokenError::RandomSource)
            },
        }
    }

    /// The position of the mapping for `ip`, if one is stored.
    fn find_mapping(&self, ip: &String) -> (r: Option<usize>)
        ensures
            r matches Some(i) ==> i < self.redirects.len() && self@.redirects[i as int].public_ip
                == ip@,
            r is None ==> !self@.maps_ip(ip@),
    {
        let mut i: usize = 0;
        while i < self.redirects.len()
            invariant
                i <= self.redirects.len(),
                forall|k: int| 0 <= k < i ==> self@.redirects[k].public_ip != ip@,
            decreases self.redirects.len() - i,
        {
            if self.redirects[i].public_ip == *ip {
                return Some(i);
            }
            i = i + 1;
        }
        None
    }

    /// Whether a user holds this key.
    fn knows_key(&self, key: &String) -> (r: bool)
        ensures
            r == self@.has_user(key@),
    {
        let mut i: usize = 0;
        while i < self.users.len()
            invariant
                i <= self.users.len(),
                forall|k: int| 0 <= k < i ==> self@.users[k].public_key != key@,
            decreases self.users.len() - i,
        {
            if self.users[i].public_key == *key {
                assert(self@.users[i as int].public_key == key@);
                return true;
            }
            i = i + 1;
        }
        false
    }

    /// Whether this invite code has been consumed.
    fn invite_consumed(&self, code: &String) -> (r: bool)
        ensures
            r == self@.consumed.contains(code@),
    {
        let mut i: usize = 0;
        while i < self.consumed_invites.len()
            invariant
                i <= self.consumed_invites.len(),
                forall|k: int| 0 <= k < i ==> self@.consumed[k] != code@,
            decreases self.consumed_invites.len() - i,
        {
            if self.consumed_invites[i] == *code {
                assert(self@.consumed[i as int] == code@);
                return true;
            }
            i = i + 1;
        }
        false
    }

    /// Whether `code` is a recognised invite that has not been consumed.
    pub fn invite_available(&self, code: &String) -> (r: bool)
        ensures
            r == self@.invite_available(code@),
    {
        check_invite(code) && !self.invite_consumed(code)
    }

    /// Where a caller with this public IP is sent: the host and port of the
    /// mapping stored for it, or `NotFound` when there is none.
    pub fn resolve_redirect(&self, caller_ip: &String) -> (r: Result<IpMapping, ResolveError>)
        requires
            self.wf(),
        ensures
            self@.resolves_to(caller_ip@, r),
    {
        match self.find_mapping(caller_ip) {
            None => Err(ResolveError::NotFound),
            Some(i) => {
                proof {
                    lemma_lookup_finds_row(self@, i as int);
                }
                let m = &self.redirects[i];
                Ok(IpMapping { ip: m.internal_host.clone(), port: m.internal_port as i32 })
            },
        }
    }

    /// Records a user; used to bring back what was stored before.
    pub fn add_user(&mut self, public_key: String, created_at: i64)
        requires
            old(self).wf(),
        ensures
            final(self).wf(),
            final(self)@ == (StoreView {
                users: old(self)@.users.push(UserView { public_key: public_key@, created_at }),
                ..old(self)@
            }),
    {
        let ghost v0 = self@;
        let user = User { public_key, created_at };
        self.users.push(user);
        assert(self@.users =~= v0.users.push(user@));
        assert(self@.tokens =~= v0.tokens);
        assert(self@.redirects =~= v0.redirects);
        assert(self@.consumed =~= v0.consumed);
        proof {
            lemma_owners_kept(v0, self@);
        }
    }

    /// Marks an invite code as consumed; used to bring back what was stored before.
    pub fn mark_invite_consumed(&mut self, code: String)
        requires
            old(self).wf(),
        ensures
            final(self).wf(),
            final(self)@ == (StoreView { consumed: old(self)@.consumed.push(code@), ..old(self)@ }),
    {
        let ghost v0 = self@;
        let ghost c = code@;
        self.consumed_invites.push(code);
        assert(self@.consumed =~= v0.consumed.push(c));
        assert(self@.tokens =~= v0.tokens);
        assert(self@.users =~= v0.users);
        assert(self@.redirects =~= v0.redirects);
    }

    /// Adds the redirect target of a public IP. The IP must not have a
    /// mapping yet and the key must belong to a registered user; otherwise
    /// the store is left unchanged.
    pub fn add_mapping(&mut self, mapping: RedirectMapping) -> (r: Result<(), MappingError>)
        requires
            old(self).wf(),
        ensures
            final(self).wf(),
            old(self)@.maps_ip(mapping.public_ip@) ==> r == Err::<(), MappingError>(
                MappingError::DuplicateIp,
            ) && final(self)@ == old(self)@,
            !old(self)@.maps_ip(mapping.public_ip@) && !old(self)@.has_user(mapping.public_key@)
                ==> r == Err::<(), MappingError>(MappingError::UnknownKey) && final(self)@ == old(
                self,
            )@,
            !old(self)@.maps_ip(mapping.public_ip@) && old(self)@.has_user(mapping.public_key@)
                ==> r == Ok::<(), MappingError>(()) && final(self)@ == (StoreView {
                redirects: old(self)@.redirects.push(mapping@),
                ..old(self)@
            }),
    {
        if self.find_mapping(&mapping.public_ip).is_some() {
            return Err(MappingError::DuplicateIp);
        }
        if !self.knows_key(&mapping.public_key) {
            return Err(MappingError::UnknownKey);
        }
        let ghost v0 = self@;
        let ghost m = mapping@;
        self.redirects.push(mapping);
        assert(self@.redirects =~= v0.redirects.push(m));
        assert(self@.tokens =~= v0.tokens);
        assert(self@.users =~= v0.users);
        assert(self@.consumed =~= v0.consumed);
        Ok(())
    }

    /// Registers with the URL check's verdict given: checks the invite, then
    /// the key, then `url_ok`; when all pass, consumes the invite and records
    /// the user in one step. A refused registration changes nothing.
    pub fn register_with(&mut self, reg: &Register, url_ok: bool, now: i64) -> (r: Result<
        (),
        RegisterError,
    >)
        requires
            old(self).wf(),
        ensures
            final(self).wf(),
            r == old(self)@.registration_outcome(reg@, url_ok),
            r is Ok ==> final(self)@ == old(self)@.registered(reg@, now),
            r is Err ==> final(self)@ == old(self)@,
    {
        if !self.invite_available(&reg.invite) {
            return Err(RegisterError::InvalidInvite);
        }
        if !check_key(&reg.key) {
            return Err(RegisterError::InvalidKey);
        }
        if !url_ok {
            return Err(RegisterError::InvalidUrl);
        }
        let ghost v0 = self@;
        let user = User { public_key: reg.key.clone(), created_at: now };
        self.consumed_invites.push(reg.invite.clone());
        self.users.push(user);
        assert(self@.consumed =~= v0.consumed.push(reg@.invite));
        assert(self@.users =~= v0.users.push(user@));
        assert(self@.tokens =~= v0.tokens);
        assert(self@.redirects =~= v0.redirects);
        proof {
            lemma_owners_kept(v0, self@);
        }
        Ok(())
    }

    /// Checks a registration without recording it: the invite must be
    /// recognised and unconsumed, then the key must meet the key policy,
    /// then the URL must parse; the URL is looked at only once the invite
    /// and key have passed. When all pass, gives the user record to write,
    /// stamped with the current time.
    pub fn prepare_registration(&self, reg: &Register) -> (r: Result<User, RegisterError>)
        requires
            self.wf(),
        ensures
            r is Ok <==> self@.registration_outcome(reg@, url_parses(reg.url@)) is Ok,
            r matches Err(e) ==> self@.registration_outcome(reg@, url_parses(reg.url@)) == Err::<
                (),
                RegisterError,
            >(e),
            r matches Ok(u) ==> u.public_key@ == reg.key@,
    {
        if !self.invite_available(&reg.invite) {
            return Err(RegisterError::InvalidInvite);
        }
        if !check_key(&reg.key) {
            return Err(RegisterError::InvalidKey);
        }
        if !check_url(&reg.url) {
            return Err(RegisterError::InvalidUrl);
        }
        Ok(User { public_key: reg.key.clone(), created_at: now_epoch_seconds() })
    }

    /// Records a prepared registration once the database has reported the
    /// user insert: the invite is consumed and the user kept, in one step,
    /// exactly when the insert wrote one row.
    pub fn settle_registration(&mut self, reg: &Register, user: &User, affected: Result<usize, ()>) -> (r: Result<
        (),
        WriteError,
    >)
        requires
            old(self).wf(),
            old(self)@.registration_outcome(reg@, true) is Ok,
            user.public_key@ == reg.key@,
        ensures
            final(self).wf(),
            r == user_write_verdict(affected),
            r is Ok ==> final(self)@ == old(self)@.registered(reg@, user.created_at),
            r is Err ==> final(self)@ == old(self)@,
    {
        let verdict = user_write_outcome(affected);
        if verdict.is_ok() {
            let done = self.register_with(reg, true, user.created_at);
            assert(done is Ok);
        }
        verdict
    }

    /// Registers a hub and records it at once: the checks of
    /// `prepare_registration`, then the invite consumed and the user
    /// recorded at the current time, in one step. A refused registration
    /// changes nothing.
    pub fn register(&mut self, reg: &Register) -> (r: Result<(), RegisterError>)
        requires
            old(self).wf(),
        ensures
            final(self).wf(),
            r == old(self)@.registration_outcome(reg@, url_parses(reg.url@)),
            r is Ok ==> final(self)@ == old(self)@.registered(reg@, final(self)@.users.last().created_at),
            r is Err ==> final(self)@ == old(self)@,
    {
        let user = match self.prepare_registration(reg) {
            Ok(u) => u,
            Err(e) => return Err(e),
        };
        self.register_with(reg, true, user.created_at)
    }
}

} // verus!
