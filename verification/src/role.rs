//! The two participant slots of a pairing.

use vstd::prelude::*;
use crate::text::{begins_with, starts_with};

verus! {

/// The path prefix that marks a connection as the initiator's. Every other
/// path belongs to the responder.
pub open spec fn initiator_prefix() -> Seq<char> {
    seq!['/', 'a', 'l', 'i', 'c', 'e', '/']
}

/// One of the two fixed slots of a pairing. A connection's role is decided by
/// the path it was opened on and never changes afterwards.
#[derive(Clone, Copy, Debug, PartialEq, Eq, Structural)]
pub enum Role {
    Initiator,
    Responder,
}

impl Role {
    /// The role that a connection opened on `path` plays.
    pub open spec fn of_path(path: Seq<char>) -> Role {
        if begins_with(path, initiator_prefix()) {
            Role::Initiator
        } else {
            Role::Responder
        }
    }

    /// The role that a connection opened on `path` plays: the initiator's
    /// where the path starts with `/alice/`, the responder's everywhere else.
    pub fn from_path(path: &str) -> (r: Role)
        ensures
            r == Role::of_path(path@),
    {
        proof {
            reveal_strlit("/alice/");
            assert("/alice/"@ =~= initiator_prefix());
        }
        if starts_with(path, "/alice/") {
            Role::Initiator
        } else {
            Role::Responder
        }
    }

    /// The name under which the role appears in paths and reports.
    pub fn name(self) -> (r: &'static str)
        ensures
            r@ == match self {
                Role::Initiator => "alice"@,
                Role::Responder => "bob"@,
            },
    {
        match self {
            Role::Initiator => "alice",
            Role::Responder => "bob",
        }
    }

    /// The other slot of the same pairing.
    pub open spec fn spec_peer(self) -> Role {
        match self {
            Role::Initiator => Role::Responder,
            Role::Responder => Role::Initiator,
        }
    }

    /// The other slot of the same pairing.
    #[verifier::when_used_as_spec(spec_peer)]
    pub fn peer(self) -> (r: Role)
        ensures
            r == self.spec_peer(),
    {
        match self {
            Role::Initiator => Role::Responder,
            Role::Responder => Role::Initiator,
        }
    }
}

} // verus!
