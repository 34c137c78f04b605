//! The three states of a tunnel connection and their wire names.

use crate::text::{chars_of, eq_str};
use vstd::prelude::*;

verus! {

/// The state of the tunnel connection.
#[derive(Clone, Copy, Debug, PartialEq, Eq, Structural)]
pub enum St {
    Disconnected,
    Connecting,
    Connected,
}

impl St {
    /// The wire name of the state.
    pub open spec fn name(self) -> Seq<char> {
        match self {
            St::Disconnected => "disconnected"@,
            St::Connecting => "connecting"@,
            St::Connected => "connected"@,
        }
    }

    /// The state that a wire name stands for; every name other than
    /// `connected` and `connecting` reads as disconnected.
    pub open spec fn from_name(s: Seq<char>) -> St {
        if s == "connected"@ {
            St::Connected
        } else if s == "connecting"@ {
            St::Connecting
        } else {
            St::Disconnected
        }
    }

    pub fn as_str(&self) -> (r: &'static str)
        ensures
            r@ == self.name(),
    {
        match self {
            St::Disconnected => "disconnected",
            St::Connecting => "connecting",
            St::Connected => "connected",
        }
    }

    pub fn from_wire(s: &str) -> (r: St)
        ensures
            r == St::from_name(s@),
    {
        let v = chars_of(s);
        if eq_str(&v, "connected") {
            St::Connected
        } else if eq_str(&v, "connecting") {
            St::Connecting
        } else {
            St::Disconnected
        }
    }
}

/// Reading back a wire name gives the state that wrote it.
pub proof fn lemma_name_round_trip(s: St)
    ensures
        St::from_name(s.name()) == s,
{
    reveal_strlit("connected");
    reveal_strlit("connecting");
    reveal_strlit("disconnected");
    if s is Disconnected {
        assert("disconnected"@[0] != "connected"@[0]);
        assert("disconnected"@.len() != "connecting"@.len());
    }
    if s is Connecting {
        assert("connecting"@.len() != "connected"@.len());
    }
}

} // verus!
