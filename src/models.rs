use vstd::prelude::*;

verus! {

/// A registration request, as parsed from the request body.
#[derive(Debug, Clone)]
pub struct Register {
    /// Public key of the hub; later reconfiguration must be signed with it.
    pub key: String,
    /// Invite code to consume.
    pub invite: String,
    /// URL to redirect to.
    pub url: String,
}

pub ghost struct RegisterView {
    pub key: Seq<char>,
    pub invite: Seq<char>,
    pub url: Seq<char>,
}

impl View for Register {
    type V = RegisterView;

    open spec fn view(&self) -> RegisterView {
        RegisterView { key: self.key@, invite: self.invite@, url: self.url@ }
    }
}

/// A request to change an existing redirect, signed with the registered key.
#[derive(Debug, Clone)]
pub struct Reconfigure {
    pub key: String,
    pub signature: String,
    pub payload: String,
}

/// Where a caller is sent: an internal host and a port.
#[derive(Debug, Clone)]
pub struct IpMapping {
    pub ip: String,
    pub port: i32,
}

} // verus!
