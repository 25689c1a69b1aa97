use vstd::prelude::*;
use crate::error::ConnectionError;
use crate::transport::{DuplexStream, StreamProtocolTransport};

verus! {

/// The transport a descriptor has installed.
#[derive(Debug, Clone, Copy, PartialEq, Eq, Structural)]
pub enum Installed {
    /// No transport yet.
    Nothing,
    /// A socket of the engine's own networking, set up by `accept` or `connect`.
    Native,
    /// A caller's stream, adapted by `use_stream`.
    Stream,
}

/// Why a protocol cannot be run on a descriptor.
#[derive(Debug, Clone, Copy, PartialEq, Eq, Structural)]
pub enum PreconditionFailure {
    /// `party` was never called.
    PartyUnset,
    /// No transport was installed.
    NotConnected,
}

/// The ids of the two parties of a protocol.
pub open spec fn valid_party(id: i32) -> bool {
    id == 1 || id == 2
}

/// Describes a two-party Yao protocol: which party this side plays and the
/// transport it talks over.
///
/// The party starts unset (0) and the transport empty. A transport is
/// installed at most once, by `accept`, one of the `connect` methods or
/// `use_stream`; `release` takes it out again, once.
#[derive(Debug)]
pub struct ProtocolDesc {
    party: i32,
    transport: Installed,
}

impl ProtocolDesc {
    /// This side's party id, 0 while unset.
    pub closed spec fn party_spec(&self) -> i32 {
        self.party
    }

    /// The transport installed.
    pub closed spec fn installed_spec(&self) -> Installed {
        self.transport
    }

    /// The party is unset or valid.
    pub open spec fn wf(&self) -> bool {
        self.party_spec() == 0 || valid_party(self.party_spec())
    }

    /// Whether `party(id)` is accepted: the id is valid, and it does not
    /// change a party already set once a transport is in place.
    pub open spec fn party_allowed(&self, id: i32) -> bool {
        valid_party(id) && (self.installed_spec() == Installed::Nothing || self.party_spec() == 0
            || self.party_spec() == id)
    }

    /// A descriptor with no party and no transport.
    pub fn new() -> (r: Self)
        ensures
            r.party_spec() == 0,
            r.installed_spec() == Installed::Nothing,
            r.wf(),
    {
        ProtocolDesc { party: 0, transport: Installed::Nothing }
    }

    /// This side's party id, 0 while unset.
    pub fn party_id(&self) -> (r: i32)
        ensures
            r == self.party_spec(),
    {
        self.party
    }

    /// The transport installed.
    pub fn installed(&self) -> (r: Installed)
        ensures
            r == self.installed_spec(),
    {
        self.transport
    }

    pub(crate) fn with_transport(self, t: Installed) -> (r: Self)
        ensures
            r.party_spec() == self.party_spec(),
            r.installed_spec() == t,
    {
        ProtocolDesc { party: self.party, transport: t }
    }

    /// Sets the party id, which must be 1 or 2. Setting the same id again is
    /// harmless; changing it once a transport is installed is refused.
    pub fn party(self, id: i32) -> (r: Result<Self, ConnectionError>)
        ensures
            self.party_allowed(id) <==> r is Ok,
            r matches Ok(d) ==> d.party_spec() == id && d.installed_spec()
                == self.installed_spec() && d.wf(),
            r matches Err(e) ==> e == ConnectionError::Configuration,
    {
        if id != 1 && id != 2 {
            return Err(ConnectionError::Configuration);
        }
        match self.transport {
            Installed::Nothing => {},
            _ => {
                if self.party != 0 && self.party != id {
                    return Err(ConnectionError::Configuration);
                }
            },
        }
        Ok(ProtocolDesc { party: id, transport: self.transport })
    }

    /// Installs a transport over `stream`. The returned transport is the one
    /// the engine drives; cleaning it up hands the stream back. If a
    /// transport is already installed this is a configuration error, and
    /// the descriptor and the stream are handed back untouched.
    pub fn use_stream<S: DuplexStream>(self, stream: S) -> (r: Result<
        (ProtocolDesc, StreamProtocolTransport<S>),
        (ProtocolDesc, S),
    >)
        ensures
            (self.installed_spec() == Installed::Nothing) <==> r is Ok,
            r matches Ok(p) ==> p.0.party_spec() == self.party_spec() && p.0.installed_spec()
                == Installed::Stream && p.1.stream_spec() == stream,
            r matches Err(p) ==> p.0 == self && p.1 == stream,
    {
        match self.transport {
            Installed::Nothing => {
                let d = self.with_transport(Installed::Stream);
                Ok((d, StreamProtocolTransport::new(stream)))
            },
            _ => Err((self, stream)),
        }
    }

    /// Checks that a protocol can run: the party must be set and a transport
    /// installed. On success the descriptor is handed back to run the
    /// protocol; otherwise the failure says which of the two is missing, and
    /// the engine must not be entered.
    pub fn exec_yao_protocol(self) -> (r: Result<Self, PreconditionFailure>)
        ensures
            self.party_spec() == 0 ==> r == Err::<Self, _>(PreconditionFailure::PartyUnset),
            self.party_spec() != 0 && self.installed_spec() == Installed::Nothing ==> r == Err::<
                Self,
                _,
            >(PreconditionFailure::NotConnected),
            self.party_spec() != 0 && self.installed_spec() != Installed::Nothing ==> (r matches Ok(
                d,
            ) && d.party_spec() == self.party_spec() && d.installed_spec() == self.installed_spec()),
    {
        if self.party == 0 {
            return Err(PreconditionFailure::PartyUnset);
        }
        match self.transport {
            Installed::Nothing => Err(PreconditionFailure::NotConnected),
            _ => Ok(self),
        }
    }

    /// Takes the installed transport out of the descriptor and says which it
    /// was, so that the engine's cleanup runs for it exactly once. A second
    /// call, or a call on a descriptor that never had a transport, returns
    /// `Installed::Nothing`.
    pub fn release(&mut self) -> (r: Installed)
        ensures
            r == old(self).installed_spec(),
            final(self).installed_spec() == Installed::Nothing,
            final(self).party_spec() == old(self).party_spec(),
    {
        let t = self.transport;
        self.transport = Installed::Nothing;
        t
    }
}

/// A descriptor with no party and no transport accepts exactly the party
/// ids 1 and 2.
pub proof fn lemma_fresh_party(d: ProtocolDesc, id: i32)
    requires
        d.party_spec() == 0,
        d.installed_spec() == Installed::Nothing,
    ensures
        d.party_allowed(id) <==> (id == 1 || id == 2),
{
}

/// A new, empty descriptor; the same as `ProtocolDesc::new()`.
pub fn protocol_desc() -> (r: ProtocolDesc)
    ensures
        r.party_spec() == 0,
        r.installed_spec() == Installed::Nothing,
{
    ProtocolDesc::new()
}

} // verus!
