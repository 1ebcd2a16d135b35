//! A dynamic HTTP redirector's core: issuing request tokens, resolving a
//! caller's public IP to an internal host and port, and gating registrations
//! behind a single-use invite, a key check and a URL check.

mod gate;
mod handlers;
mod models;
mod reply;
mod store;
mod token;

pub use gate::{INVITE_CODE, check_invite, check_key, check_url};
pub use handlers::{
    lemma_invalid_invite_decides_alone, lemma_invite_admits_one_registration,
    lemma_malformed_url_is_bad_request, lemma_one_invite_one_user, lemma_spent_invite_changes_nothing,
    lemma_stored_mapping_resolves, lemma_token_id_from_draw_alone, lemma_token_id_non_negative, lemma_unmapped_ip_not_found,
    missing_body_reply, redirect_reply, register_all, register_reply, registration_settled_reply,
    token_reply, token_settled_reply,
};
pub use models::{IpMapping, Reconfigure, Register, RegisterView};
pub use reply::{
    Reply, Status, WriteError, decimal, reconfigure, token_write_outcome, user_write_outcome,
};
pub use store::{
    MappingError, MappingView, RedirectMapping, RegisterError, ResolveError, Store, StoreView, User,
    UserView, lemma_lookup_finds_row,
};
pub use token::{Token, TokenError, token_from_draw};
