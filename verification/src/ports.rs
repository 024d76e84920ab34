//! Finding a port for the listener: the range, and the order in which it is tried.

use crate::text::{decimal_digits, push_decimal};
use vstd::prelude::*;
use vstd::string::*;

verus! {

/// The lowest port that a session may listen on.
pub const OAUTH_PORT_MIN: u16 = 17900;

/// The highest port that a session may listen on.
pub const OAUTH_PORT_MAX: u16 = 17999;

/// Whether `port` lies in the range that sessions listen on, both ends included.
pub open spec fn in_port_range(port: u16) -> bool {
    OAUTH_PORT_MIN <= port <= OAUTH_PORT_MAX
}

/// The port that is tried after `port`: the next higher one, or none after the
/// last of the range.
pub open spec fn candidate_after(port: u16) -> Option<u16> {
    if port < OAUTH_PORT_MAX {
        Some((port + 1) as u16)
    } else {
        None
    }
}

/// The port that is tried after `failures` binds have failed, counted from the
/// start of a scan; `None` once the whole range has failed.
pub open spec fn candidate_at(failures: nat) -> Option<u16> {
    if failures <= OAUTH_PORT_MAX - OAUTH_PORT_MIN {
        Some((OAUTH_PORT_MIN + failures) as u16)
    } else {
        None
    }
}

/// Why a session could not be started.
#[derive(Clone, Copy, Debug, PartialEq, Eq, Structural)]
pub enum StartError {
    /// No port of the range could be bound.
    NoAvailablePort,
}

/// The words that report a `StartError`; they name the range.
pub open spec fn start_error_message(error: StartError) -> Seq<char> {
    "No available ports in range "@ + decimal_digits(OAUTH_PORT_MIN as nat) + "-"@
        + decimal_digits(OAUTH_PORT_MAX as nat)
}

impl StartError {
    /// The words that report this error.
    pub fn message(&self) -> (words: String)
        ensures
            words@ == start_error_message(*self),
    {
        let mut words = String::from_str("No available ports in range ");
        push_decimal(&mut words, OAUTH_PORT_MIN as u64);
        words.append("-");
        push_decimal(&mut words, OAUTH_PORT_MAX as u64);
        words
    }
}

/// A walk over the range, lowest port first. It stands on the port to try next;
/// each failed bind moves it on by one, and after the last port it is exhausted.
pub struct PortScan {
    next: u32,
}

impl PortScan {
    #[verifier::type_invariant]
    spec fn in_bounds(self) -> bool {
        OAUTH_PORT_MIN <= self.next <= OAUTH_PORT_MAX + 1
    }

    /// The number of binds that have failed so far.
    pub closed spec fn failures(self) -> nat {
        (self.next - OAUTH_PORT_MIN) as nat
    }

    /// The port that the scan stands on, `None` once it is exhausted.
    pub open spec fn standing(self) -> Option<u16> {
        candidate_at(self.failures())
    }

    /// A scan that stands on the lowest port.
    pub fn new() -> (scan: PortScan)
        ensures
            scan.failures() == 0,
    {
        PortScan { next: OAUTH_PORT_MIN as u32 }
    }

    /// The port to try next, `None` once every port has failed.
    pub fn candidate(&self) -> (port: Option<u16>)
        ensures
            port == self.standing(),
            port matches Some(p) ==> in_port_range(p),
    {
        proof {
            use_type_invariant(self);
        }
        if self.next <= OAUTH_PORT_MAX as u32 {
            Some(self.next as u16)
        } else {
            None
        }
    }

    /// Records that the bind of the port that the scan stands on has failed: the
    /// scan moves to the next port. An exhausted scan stays as it is.
    pub fn reject(&mut self)
        ensures
            final(self).failures() == if old(self).standing() is Some {
                old(self).failures() + 1
            } else {
                old(self).failures()
            },
    {
        proof {
            use_type_invariant(&*self);
        }
        if self.next <= OAUTH_PORT_MAX as u32 {
            self.next = self.next + 1;
        }
    }

    /// Where the scan ended: the port it stands on, which is the one that was
    /// bound, or `NoAvailablePort` where it is exhausted.
    pub fn bound(&self) -> (port: Result<u16, StartError>)
        ensures
            match self.standing() {
                Some(p) => port == Ok::<u16, StartError>(p) && in_port_range(p),
                None => port == Err::<u16, StartError>(StartError::NoAvailablePort),
            },
    {
        match self.candidate() {
            Some(p) => Ok(p),
            None => Err(StartError::NoAvailablePort),
        }
    }
}

/// The address that the listener of `port` binds: the loopback interface.
pub open spec fn bind_address_text(port: u16) -> Seq<char> {
    "127.0.0.1:"@ + decimal_digits(port as nat)
}

/// The address that the listener of `port` binds.
pub fn bind_address(port: u16) -> (address: String)
    ensures
        address@ == bind_address_text(port),
{
    let mut address = String::from_str("127.0.0.1:");
    push_decimal(&mut address, port as u64);
    address
}

/// A scan tries the ports of the range in ascending order, each once: the port
/// after `failures` failed binds is the lowest port plus `failures`, every port it
/// stands on lies in the range, the next is one higher, and it is exhausted
/// exactly when all hundred have failed.
pub proof fn lemma_scan_order(failures: nat)
    ensures
        candidate_at(0) == Some(OAUTH_PORT_MIN),
        candidate_at(failures) matches Some(p) ==> in_port_range(p) && candidate_at(failures + 1)
            == candidate_after(p),
        candidate_at(failures) is None <==> failures >= 100,
        candidate_at(failures) is None ==> candidate_at(failures + 1) is None,
{
}

} // verus!
