//! The record of one pairing: the four ends of its two queues, each either
//! held by the record or checked out by a live connection.

use vstd::prelude::*;
use crate::channel::{consumer_bound, open_channel, producer_bound, ConsumerHandle, ProducerHandle};
use crate::role::Role;

verus! {

/// The number of messages that each queue of a mailbox buffers.
pub const CAPACITY: usize = 32;

/// The four ends of a pairing's two queues. The forward queue runs from the
/// initiator to the responder, the reverse queue the other way. An end is
/// `Some` while the record holds it and `None` while a connection has it.
#[derive(Debug)]
pub struct Mailbox {
    pub fwd_producer: Option<ProducerHandle>,
    pub fwd_consumer: Option<ConsumerHandle>,
    pub rev_producer: Option<ProducerHandle>,
    pub rev_consumer: Option<ConsumerHandle>,
}

impl Mailbox {
    /// The slot of the end that `role` sends into: the forward queue's for
    /// the initiator, the reverse queue's for the responder.
    pub open spec fn producer_slot(self, role: Role) -> Option<ProducerHandle> {
        match role {
            Role::Initiator => self.fwd_producer,
            Role::Responder => self.rev_producer,
        }
    }

    /// The slot of the end that `role` receives from: the reverse queue's for
    /// the initiator, the forward queue's for the responder.
    pub open spec fn consumer_slot(self, role: Role) -> Option<ConsumerHandle> {
        match role {
            Role::Initiator => self.rev_consumer,
            Role::Responder => self.fwd_consumer,
        }
    }

    /// Both ends that `role` needs are in the record: no connection plays
    /// `role` on this pairing.
    pub open spec fn available(self, role: Role) -> bool {
        self.producer_slot(role) is Some && self.consumer_slot(role) is Some
    }

    /// The record with both of `role`'s slots emptied.
    pub open spec fn vacated(self, role: Role) -> Mailbox {
        match role {
            Role::Initiator => Mailbox { fwd_producer: None, rev_consumer: None, ..self },
            Role::Responder => Mailbox { rev_producer: None, fwd_consumer: None, ..self },
        }
    }

    /// The record with `producer` and `consumer` put into `role`'s slots.
    pub open spec fn restored(
        self,
        role: Role,
        producer: ProducerHandle,
        consumer: ConsumerHandle,
    ) -> Mailbox {
        match role {
            Role::Initiator => Mailbox {
                fwd_producer: Some(producer),
                rev_consumer: Some(consumer),
                ..self
            },
            Role::Responder => Mailbox {
                rev_producer: Some(producer),
                fwd_consumer: Some(consumer),
                ..self
            },
        }
    }

    /// The record that holds no end at all.
    pub open spec fn spec_vacant() -> Mailbox {
        Mailbox { fwd_producer: None, fwd_consumer: None, rev_producer: None, rev_consumer: None }
    }

    /// The record made of the two ends of `fwd` and the two ends of `rev`.
    pub open spec fn assembled(
        fwd: (ProducerHandle, ConsumerHandle),
        rev: (ProducerHandle, ConsumerHandle),
    ) -> Mailbox {
        Mailbox {
            fwd_producer: Some(fwd.0),
            fwd_consumer: Some(fwd.1),
            rev_producer: Some(rev.0),
            rev_consumer: Some(rev.1),
        }
    }

    /// All four ends are in the record, and each belongs to a queue that
    /// buffers `bound` messages.
    pub open spec fn is_fresh(self, bound: nat) -> bool {
        &&& self.fwd_producer matches Some(p) && producer_bound(p) == bound
        &&& self.fwd_consumer matches Some(c) && consumer_bound(c) == bound
        &&& self.rev_producer matches Some(p) && producer_bound(p) == bound
        &&& self.rev_consumer matches Some(c) && consumer_bound(c) == bound
    }

    /// Builds the record of a pairing from its two queues: `fwd` carries the
    /// initiator's messages to the responder, `rev` the responder's to the
    /// initiator.
    pub fn assemble(
        fwd: (ProducerHandle, ConsumerHandle),
        rev: (ProducerHandle, ConsumerHandle),
    ) -> (m: Mailbox)
        ensures
            m == Mailbox::assembled(fwd, rev),
    {
        Mailbox {
            fwd_producer: Some(fwd.0),
            fwd_consumer: Some(fwd.1),
            rev_producer: Some(rev.0),
            rev_consumer: Some(rev.1),
        }
    }

    /// Opens the two queues of a new pairing and builds its record. Which
    /// ends come back is for the channel to say; that all four are there,
    /// each with room for `CAPACITY` messages, and that either role can be
    /// claimed, holds of every outcome.
    pub fn open() -> (m: Mailbox)
        ensures
            m.is_fresh(CAPACITY as nat),
            m.available(Role::Initiator),
            m.available(Role::Responder),
    {
        let fwd = open_channel(CAPACITY);
        let rev = open_channel(CAPACITY);
        Mailbox::assemble(fwd, rev)
    }

    /// The record that holds no end at all.
    pub fn vacant() -> (m: Mailbox)
        ensures
            m == Mailbox::spec_vacant(),
    {
        Mailbox { fwd_producer: None, fwd_consumer: None, rev_producer: None, rev_consumer: None }
    }

    /// Whether both ends that `role` needs are in the record.
    pub fn is_available(&self, role: Role) -> (r: bool)
        ensures
            r == self.available(role),
    {
        match role {
            Role::Initiator => self.fwd_producer.is_some() && self.rev_consumer.is_some(),
            Role::Responder => self.rev_producer.is_some() && self.fwd_consumer.is_some(),
        }
    }

    /// Hands out the two ends that `role` needs and empties their slots.
    /// Where either end is missing, nothing is handed out and the record
    /// stays as it is: no end is ever dropped.
    pub fn claim(&mut self, role: Role) -> (r: Option<(ProducerHandle, ConsumerHandle)>)
        ensures
            old(self).available(role) ==> r == Some(
                (old(self).producer_slot(role).unwrap(), old(self).consumer_slot(role).unwrap()),
            ) && *final(self) == old(self).vacated(role),
            !old(self).available(role) ==> r is None && *final(self) == *old(self),
    {
        if !self.is_available(role) {
            return None;
        }
        match role {
            Role::Initiator => {
                let producer = self.fwd_producer.take().unwrap();
                let consumer = self.rev_consumer.take().unwrap();
                Some((producer, consumer))
            },
            Role::Responder => {
                let producer = self.rev_producer.take().unwrap();
                let consumer = self.fwd_consumer.take().unwrap();
                Some((producer, consumer))
            },
        }
    }

    /// Puts `producer` and `consumer` into `role`'s slots, so that the next
    /// connection that plays `role` can claim them.
    pub fn restore(&mut self, role: Role, producer: ProducerHandle, consumer: ConsumerHandle)
        ensures
            *final(self) == old(self).restored(role, producer, consumer),
            final(self).available(role),
    {
        match role {
            Role::Initiator => {
                self.fwd_producer = Some(producer);
                self.rev_consumer = Some(consumer);
            },
            Role::Responder => {
                self.rev_producer = Some(producer);
                self.fwd_consumer = Some(consumer);
            },
        }
    }
}

} // verus!
