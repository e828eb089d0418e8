//! One accepted connection: the ends that it checked out for its role.
//!
//! A connection is opened by a claim on the registry and closed by the
//! return of its ends. In between, its relay loop runs.

use vstd::prelude::*;
use crate::channel::{ConsumerHandle, ProducerHandle};
use crate::registry::{checked_out, claimable, returned, MailboxState, RoleConflict};
use crate::role::Role;

verus! {

/// A live connection on a pairing identifier. It owns the producer end of
/// the queue that its role sends into and the consumer end of the queue that
/// its role receives from, from the claim until the return.
#[derive(Debug)]
pub struct Connection {
    pub id: String,
    pub role: Role,
    pub producer: ProducerHandle,
    pub consumer: ConsumerHandle,
}

impl Connection {
    /// Claims `role` on `id` for a connection that is to relay with the ends
    /// handed out. Fails with `RoleConflict`, exactly where the role is
    /// taken; such a connection never relays.
    pub fn open(state: &mut MailboxState, id: &str, role: Role) -> (r: Result<
        Connection,
        RoleConflict,
    >)
        ensures
            match r {
                Ok(conn) => {
                    &&& conn.id@ == id@
                    &&& conn.role == role
                    &&& checked_out(
                        old(state)@,
                        id@,
                        role,
                        final(state)@,
                        Ok((conn.producer, conn.consumer)),
                    )
                },
                Err(conflict) => checked_out(old(state)@, id@, role, final(state)@, Err(conflict)),
            },
            r is Ok <==> claimable(old(state)@, id@, role),
    {
        match state.checkout(id, role) {
            Ok(ends) => Ok(
                Connection {
                    id: id.to_owned(),
                    role,
                    producer: ends.0,
                    consumer: ends.1,
                },
            ),
            Err(conflict) => Err(conflict),
        }
    }

    /// Ends the connection: returns both of its ends to its role's slots of
    /// its identifier, whatever made it stop, so that the next connection
    /// with this role can claim them.
    pub fn close(self, state: &mut MailboxState)
        ensures
            final(state)@ == returned(
                old(state)@,
                self.id@,
                self.role,
                self.producer,
                self.consumer,
            ),
            claimable(final(state)@, self.id@, self.role),
    {
        state.return_handles(self.id.as_str(), self.role, self.producer, self.consumer);
    }
}

} // verus!
