//! The bidirectional relay that follows a successful negotiation: bytes
//! from the client go to the remote peer, bytes from the remote peer go to
//! the client, and each direction is shut down independently when its
//! source reports end of stream.
//!
//! The machine decides what to forward and when to half-close; the
//! embedder moves the bytes. Ghost transcripts record what each side
//! handed in and what was forwarded on, and the invariant that the two
//! agree is the byte- and order-preservation of the relay.

use vstd::prelude::*;

verus! {

/// What the embedder reports to the relay.
#[derive(Debug)]
pub enum RelayEvent {
    /// Bytes read from the client.
    FromClient(Vec<u8>),
    /// Bytes read from the remote peer.
    FromRemote(Vec<u8>),
    /// The client reported end of stream.
    ClientEof,
    /// The remote peer reported end of stream.
    RemoteEof,
}

/// What the embedder must do next: forward bytes, and half-close the write
/// side of a stream whose peer is gone.
#[derive(Debug)]
pub struct RelayOutput {
    pub to_remote: Option<Vec<u8>>,
    pub to_client: Option<Vec<u8>>,
    pub shutdown_remote: bool,
    pub shutdown_client: bool,
}

/// The relay state for one connection pair.
pub struct Relay {
    /// The client-to-remote direction still carries bytes.
    pub client_open: bool,
    /// The remote-to-client direction still carries bytes.
    pub remote_open: bool,
    /// Every byte the client handed in while its direction was open.
    pub accepted_from_client: Ghost<Seq<u8>>,
    /// Every byte forwarded on to the remote peer.
    pub forwarded_to_remote: Ghost<Seq<u8>>,
    /// Every byte the remote peer handed in while its direction was open.
    pub accepted_from_remote: Ghost<Seq<u8>>,
    /// Every byte forwarded on to the client.
    pub forwarded_to_client: Ghost<Seq<u8>>,
}

impl Relay {
    /// What must hold of the relay between steps: each direction has
    /// forwarded exactly what it accepted, in order.
    pub open spec fn inv(self) -> bool {
        &&& self.forwarded_to_remote@ == self.accepted_from_client@
        &&& self.forwarded_to_client@ == self.accepted_from_remote@
    }

    /// A fresh relay with both directions open and empty transcripts.
    pub fn new() -> (r: Relay)
        ensures
            r.client_open,
            r.remote_open,
            r.accepted_from_client@ == Seq::<u8>::empty(),
            r.forwarded_to_remote@ == Seq::<u8>::empty(),
            r.accepted_from_remote@ == Seq::<u8>::empty(),
            r.forwarded_to_client@ == Seq::<u8>::empty(),
            r.inv(),
    {
        Relay {
            client_open: true,
            remote_open: true,
            accepted_from_client: Ghost(Seq::empty()),
            forwarded_to_remote: Ghost(Seq::empty()),
            accepted_from_remote: Ghost(Seq::empty()),
            forwarded_to_client: Ghost(Seq::empty()),
        }
    }

    /// Whether both directions have terminated and the relay is over.
    pub fn finished(&self) -> (r: bool)
        ensures
            r == (!self.client_open && !self.remote_open),
    {
        !self.client_open && !self.remote_open
    }

    /// Advance the relay by one event.
    ///
    /// Bytes handed in on an open direction are forwarded unchanged and in
    /// order; bytes on a closed direction are dropped. An end of stream
    /// closes its direction and asks the embedder to half-close the write
    /// side the bytes were flowing to.
    pub fn step(&mut self, event: RelayEvent) -> (r: RelayOutput)
        requires
            old(self).inv(),
        ensures
            final(self).inv(),
            event matches RelayEvent::FromClient(d) ==> ({
                &&& (old(self).client_open ==> (r.to_remote matches Some(v) && v@ == d@)
                    && final(self).accepted_from_client@ == old(self).accepted_from_client@ + d@
                    && final(self).forwarded_to_remote@ == old(self).forwarded_to_remote@ + d@)
                &&& (!old(self).client_open ==> r.to_remote is None && *final(self) == *old(self))
                &&& r.to_client is None
                &&& !r.shutdown_remote
                &&& !r.shutdown_client
                &&& final(self).client_open == old(self).client_open
                &&& final(self).remote_open == old(self).remote_open
                &&& final(self).accepted_from_remote@ == old(self).accepted_from_remote@
                &&& final(self).forwarded_to_client@ == old(self).forwarded_to_client@
            }),
            event matches RelayEvent::FromRemote(d) ==> ({
                &&& (old(self).remote_open ==> (r.to_client matches Some(v) && v@ == d@)
                    && final(self).accepted_from_remote@ == old(self).accepted_from_remote@ + d@
                    && final(self).forwarded_to_client@ == old(self).forwarded_to_client@ + d@)
                &&& (!old(self).remote_open ==> r.to_client is None && *final(self) == *old(self))
                &&& r.to_remote is None
                &&& !r.shutdown_remote
                &&& !r.shutdown_client
                &&& final(self).client_open == old(self).client_open
                &&& final(self).remote_open == old(self).remote_open
                &&& final(self).accepted_from_client@ == old(self).accepted_from_client@
                &&& final(self).forwarded_to_remote@ == old(self).forwarded_to_remote@
            }),
            event matches RelayEvent::ClientEof ==> !final(self).client_open
                && final(self).remote_open == old(self).remote_open && r.to_remote is None
                && r.to_client is None && r.shutdown_remote && !r.shutdown_client
                && final(self).accepted_from_client@ == old(self).accepted_from_client@
                && final(self).forwarded_to_remote@ == old(self).forwarded_to_remote@
                && final(self).accepted_from_remote@ == old(self).accepted_from_remote@
                && final(self).forwarded_to_client@ == old(self).forwarded_to_client@,
            event matches RelayEvent::RemoteEof ==> !final(self).remote_open
                && final(self).client_open == old(self).client_open && r.to_remote is None
                && r.to_client is None && r.shutdown_client && !r.shutdown_remote
                && final(self).accepted_from_client@ == old(self).accepted_from_client@
                && final(self).forwarded_to_remote@ == old(self).forwarded_to_remote@
                && final(self).accepted_from_remote@ == old(self).accepted_from_remote@
                && final(self).forwarded_to_client@ == old(self).forwarded_to_client@,
    {
        match event {
            RelayEvent::FromClient(d) => {
                if self.client_open {
                    proof {
                        self.accepted_from_client@ = self.accepted_from_client@ + d@;
                        self.forwarded_to_remote@ = self.forwarded_to_remote@ + d@;
                    }
                    RelayOutput {
                        to_remote: Some(d),
                        to_client: None,
                        shutdown_remote: false,
                        shutdown_client: false,
                    }
                } else {
                    RelayOutput {
                        to_remote: None,
                        to_client: None,
                        shutdown_remote: false,
                        shutdown_client: false,
                    }
                }
            },
            RelayEvent::FromRemote(d) => {
                if self.remote_open {
                    proof {
                        self.accepted_from_remote@ = self.accepted_from_remote@ + d@;
                        self.forwarded_to_client@ = self.forwarded_to_client@ + d@;
                    }
                    RelayOutput {
                        to_remote: None,
                        to_client: Some(d),
                        shutdown_remote: false,
                        shutdown_client: false,
                    }
                } else {
                    RelayOutput {
                        to_remote: None,
                        to_client: None,
                        shutdown_remote: false,
                        shutdown_client: false,
                    }
                }
            },
            RelayEvent::ClientEof => {
                self.client_open = false;
                RelayOutput {
                    to_remote: None,
                    to_client: None,
                    shutdown_remote: true,
                    shutdown_client: false,
                }
            },
            RelayEvent::RemoteEof => {
                self.remote_open = false;
                RelayOutput {
                    to_remote: None,
                    to_client: None,
                    shutdown_remote: false,
                    shutdown_client: true,
                }
            },
        }
    }
}

/// Law: whatever sequence of events has driven the relay, each direction
/// has forwarded exactly the bytes it accepted, in order.
pub proof fn lemma_relay_preserves_bytes(r: Relay)
    requires
        r.inv(),
    ensures
        r.forwarded_to_remote@ == r.accepted_from_client@,
        r.forwarded_to_client@ == r.accepted_from_remote@,
{
}

} // verus!
