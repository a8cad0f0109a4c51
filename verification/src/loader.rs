use crate::address::{AddressView, ContentAddress};
use crate::error::ErrorKind;
use crate::table::SessionTable;
use vstd::prelude::*;

verus! {

/// How far one load of a session has come.
#[derive(Clone, Copy, Debug, PartialEq, Eq, Structural, Hash)]
pub enum Phase {
    /// Waiting for the table's lock.
    Lookup,
    /// The stream was asked for; waiting for its length prefix.
    Prefix,
    /// The prefix was accepted; waiting for the payload.
    Payload,
    /// The payload was accepted; waiting for the engine.
    Build,
    /// The session is in the table.
    Ready,
    /// The load was given up.
    Failed,
}

/// One load of the session for one address.
#[derive(Clone, Copy, Debug)]
pub struct Load {
    pub address: ContentAddress,
    pub phase: Phase,
}

/// What the caller reports back after carrying out an action.
#[derive(Debug)]
pub enum Event<H> {
    /// The table's lock is held.
    Locked,
    /// The stream's length prefix was read.
    Prefix(u64),
    /// The stream was read to its end; these are the bytes after the prefix.
    Payload(Vec<u8>),
    /// The engine built a session from the bytes it was given.
    Built(H),
    /// The byte store could not be reached or the stream broke off.
    TransportFailed,
    /// The engine refused the bytes.
    BuildFailed,
}

/// What the caller has to do next.
#[derive(Clone, Debug, PartialEq, Eq)]
pub enum Action {
    /// The session is stored under the load's address: hand it out.
    Deliver,
    /// Ask the byte store for the stream of the load's address and read its
    /// length prefix.
    OpenStream,
    /// Read the rest of the stream.
    ReadPayload,
    /// Build a session from these bytes.
    Build(Vec<u8>),
    /// Give the load up with this error.
    Fail(ErrorKind),
    /// The event does not belong to the load's phase; nothing has changed.
    Rejected,
}

/// The result of one step: the table, the load and the action after it.
pub struct Outcome<H> {
    pub table: Map<AddressView, H>,
    pub load: Load,
    pub action: Action,
}

/// The length prefix agrees with the address.
pub open spec fn prefix_matches(address: ContentAddress, prefix: u64) -> bool {
    prefix == address.len
}

/// What is owed for a payload of `received` bytes: nothing if it has the
/// declared length, a transport error if it is short, an integrity error if
/// it is long.
pub open spec fn payload_verdict(address: ContentAddress, received: nat) -> Option<ErrorKind> {
    if received == address.len as nat {
        None
    } else if received < address.len as nat {
        Some(ErrorKind::Transport)
    } else {
        Some(ErrorKind::Integrity)
    }
}

pub open spec fn moved(load: Load, phase: Phase) -> Load {
    Load { address: load.address, phase }
}

/// One step of a load, as a function of the table, the load and the event.
pub open spec fn next<H>(table: Map<AddressView, H>, load: Load, event: Event<H>) -> Outcome<H> {
    let rejected = Outcome { table, load, action: Action::Rejected };
    match load.phase {
        Phase::Lookup => match event {
            Event::Locked => if table.dom().contains(load.address@) {
                Outcome { table, load: moved(load, Phase::Ready), action: Action::Deliver }
            } else {
                Outcome { table, load: moved(load, Phase::Prefix), action: Action::OpenStream }
            },
            _ => rejected,
        },
        Phase::Prefix => match event {
            Event::Prefix(prefix) => if prefix_matches(load.address, prefix) {
                Outcome { table, load: moved(load, Phase::Payload), action: Action::ReadPayload }
            } else {
                Outcome {
                    table,
                    load: moved(load, Phase::Failed),
                    action: Action::Fail(ErrorKind::Integrity),
                }
            },
            Event::TransportFailed => Outcome {
                table,
                load: moved(load, Phase::Failed),
                action: Action::Fail(ErrorKind::Transport),
            },
            _ => rejected,
        },
        Phase::Payload => match event {
            Event::Payload(bytes) => match payload_verdict(load.address, bytes@.len()) {
                None => Outcome {
                    table,
                    load: moved(load, Phase::Build),
                    action: Action::Build(bytes),
                },
                Some(kind) => Outcome {
                    table,
                    load: moved(load, Phase::Failed),
                    action: Action::Fail(kind),
                },
            },
            Event::TransportFailed => Outcome {
                table,
                load: moved(load, Phase::Failed),
                action: Action::Fail(ErrorKind::Transport),
            },
            _ => rejected,
        },
        Phase::Build => match event {
            Event::Built(handle) => Outcome {
                table: if table.dom().contains(load.address@) {
                    table
                } else {
                    table.insert(load.address@, handle)
                },
                load: moved(load, Phase::Ready),
                action: Action::Deliver,
            },
            Event::BuildFailed => Outcome {
                table,
                load: moved(load, Phase::Failed),
                action: Action::Fail(ErrorKind::EngineBuild),
            },
            _ => rejected,
        },
        Phase::Ready => rejected,
        Phase::Failed => rejected,
    }
}

impl Load {
    /// A load of the session for `address` that has not begun.
    pub fn new(address: ContentAddress) -> (r: Load)
        ensures
            r == (Load { address, phase: Phase::Lookup }),
    {
        Load { address, phase: Phase::Lookup }
    }

    /// Whether the load has ended, in a session or in an error.
    pub fn is_finished(&self) -> (r: bool)
        ensures
            r == (self.phase == Phase::Ready || self.phase == Phase::Failed),
    {
        match self.phase {
            Phase::Ready | Phase::Failed => true,
            _ => false,
        }
    }

    fn at(&self, phase: Phase) -> (r: Load)
        ensures
            r == moved(*self, phase),
    {
        Load { address: self.address, phase }
    }
}

/// Checks the length prefix of a stream against the address it was asked for.
pub fn check_prefix(address: &ContentAddress, prefix: u64) -> (r: Result<(), ErrorKind>)
    ensures
        r == if prefix_matches(*address, prefix) {
            Ok::<(), ErrorKind>(())
        } else {
            Err::<(), ErrorKind>(ErrorKind::Integrity)
        },
{
    if prefix == address.len {
        Ok(())
    } else {
        Err(ErrorKind::Integrity)
    }
}

/// Checks the number of payload bytes that were read against the address.
pub fn check_payload(address: &ContentAddress, received: usize) -> (r: Result<(), ErrorKind>)
    ensures
        r == match payload_verdict(*address, received as nat) {
            None => Ok::<(), ErrorKind>(()),
            Some(kind) => Err::<(), ErrorKind>(kind),
        },
{
    let received: u64 = received as u64;
    if received == address.len {
        Ok(())
    } else if received < address.len {
        Err(ErrorKind::Transport)
    } else {
        Err(ErrorKind::Integrity)
    }
}

/// Takes a load one step further on the event that the caller reports, and
/// says what to do next. The table changes on one event only: a session
/// that the engine built is stored, unless the address has one already.
pub fn advance<H>(table: &mut SessionTable<H>, load: Load, event: Event<H>) -> (r: (Load, Action))
    ensures
        final(table)@ == next(old(table)@, load, event).table,
        r.0 == next(old(table)@, load, event).load,
        r.1 == next(old(table)@, load, event).action,
{
    match load.phase {
        Phase::Lookup => match event {
            Event::Locked => if table.contains(&load.address) {
                (load.at(Phase::Ready), Action::Deliver)
            } else {
                (load.at(Phase::Prefix), Action::OpenStream)
            },
            _ => (load, Action::Rejected),
        },
        Phase::Prefix => match event {
            Event::Prefix(prefix) => match check_prefix(&load.address, prefix) {
                Ok(_) => (load.at(Phase::Payload), Action::ReadPayload),
                Err(kind) => (load.at(Phase::Failed), Action::Fail(kind)),
            },
            Event::TransportFailed => (load.at(Phase::Failed), Action::Fail(ErrorKind::Transport)),
            _ => (load, Action::Rejected),
        },
        Phase::Payload => match event {
            Event::Payload(bytes) => match check_payload(&load.address, bytes.len()) {
                Ok(_) => (load.at(Phase::Build), Action::Build(bytes)),
                Err(kind) => (load.at(Phase::Failed), Action::Fail(kind)),
            },
            Event::TransportFailed => (load.at(Phase::Failed), Action::Fail(ErrorKind::Transport)),
            _ => (load, Action::Rejected),
        },
        Phase::Build => match event {
            Event::Built(handle) => {
                let _ = table.insert(load.address, handle);
                (load.at(Phase::Ready), Action::Deliver)
            },
            Event::BuildFailed => (load.at(Phase::Failed), Action::Fail(ErrorKind::EngineBuild)),
            _ => (load, Action::Rejected),
        },
        Phase::Ready => (load, Action::Rejected),
        Phase::Failed => (load, Action::Rejected),
    }
}

} // verus!
