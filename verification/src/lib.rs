//! An in-memory message board for a multi-worker HTTP service.
//!
//! Clients post messages, list them and clear them. Each worker instance
//! of the service has an identity and a request counter of its own; the
//! list of messages is one, shared by all instances behind a lock.
//!
//! - [`identity`]: identities for worker instances, from an atomic counter;
//! - [`counter`]: the per-instance request counter;
//! - [`store`]: the message list and the shared, locked store;
//! - [`clock`]: the wall clock and the `/now` response;
//! - [`state`]: the request handlers;
//! - [`error`]: the ways in which a request can fail.
//!
//! The HTTP layer is not part of this crate: it hands each request to a
//! handler of [`state::AppState`] and sends the answer back.

use vstd::prelude::*;

pub mod clock;
pub mod counter;
pub mod error;
pub mod identity;
pub mod state;
pub mod store;

verus! {

/// The number of worker instances that a server runs.
pub const WORKERS: usize = 8;

/// The address of the interface on which a server listens: the loopback.
pub const HOST: &'static str = "127.0.0.1";

/// The settings of one message-board server: the TCP port on which it
/// listens, on the loopback interface.
pub struct MessageApp {
    port: u16,
}

impl MessageApp {
    /// The port this server listens on.
    pub closed spec fn spec_port(&self) -> u16 {
        self.port
    }

    /// A server that will listen on `port`.
    pub fn new(port: u16) -> (app: Self)
        ensures
            app.port() == port,
    {
        MessageApp { port }
    }

    /// The port this server listens on.
    #[verifier::when_used_as_spec(spec_port)]
    pub fn port(&self) -> (port: u16)
        ensures
            port == self.port(),
    {
        self.port
    }
}

} // verus!
