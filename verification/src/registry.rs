//! The registry of mailboxes: one record per pairing identifier, made on
//! first reference and kept for as long as the registry lives.
//!
//! Every operation takes the registry by `&mut`, so each one is atomic with
//! respect to every other: two connections can never race for the same end.
//!
//! The records stand in a vector, in the order in which they were made, and
//! a hash map finds the place of an identifier's record.

use vstd::prelude::*;
use vstd::hash_map::StringHashMap;
use crate::channel::{ConsumerHandle, ProducerHandle};
use crate::mailbox::{Mailbox, CAPACITY};
use crate::role::Role;

verus! {

/// The role that a connection asked for is already played by a live
/// connection on the same pairing identifier.
#[derive(Clone, Copy, Debug, PartialEq, Eq, Structural)]
pub struct RoleConflict;

/// What a registry holds: the record of each pairing identifier that was
/// ever referred to.
pub type Records = Map<Seq<char>, Mailbox>;

/// The registry. Its view is the map from pairing identifier to record.
pub struct MailboxState {
    index: StringHashMap<usize>,
    records: Vec<Mailbox>,
}

/// A claim of `role` on `id` succeeds in `records`: the identifier is new, or
/// its record holds both ends that `role` needs.
pub open spec fn claimable(records: Records, id: Seq<char>, role: Role) -> bool {
    records.contains_key(id) ==> records[id].available(role)
}

/// `after` differs from `before` at most in the record of `id`, which it has.
pub open spec fn touches_only(before: Records, id: Seq<char>, after: Records) -> bool {
    &&& after.dom() == before.dom().insert(id)
    &&& forall|other: Seq<char>|
        other != id && before.contains_key(other) ==> after[other] == before[other]
}

/// `get_or_create(id)` took the registry from `before` to `after` and
/// returned `created`.
pub open spec fn created_or_found(
    before: Records,
    id: Seq<char>,
    after: Records,
    created: bool,
) -> bool {
    &&& created == !before.contains_key(id)
    &&& touches_only(before, id, after)
    &&& if created {
        after[id].is_fresh(CAPACITY as nat)
    } else {
        after[id] == before[id]
    }
}

/// `checkout(id, role)` took the registry from `before` to `after` and
/// returned `result`.
///
/// On a known identifier the claim is decided by the record alone: where it
/// holds both ends that `role` needs, exactly those are handed out and their
/// slots emptied; where it does not, the claim is refused and nothing
/// changes. On a new identifier the claim succeeds on a record just opened:
/// with the ends handed out put back, all four are there.
pub open spec fn checked_out(
    before: Records,
    id: Seq<char>,
    role: Role,
    after: Records,
    result: Result<(ProducerHandle, ConsumerHandle), RoleConflict>,
) -> bool {
    &&& touches_only(before, id, after)
    &&& if !before.contains_key(id) {
        &&& result matches Ok(ends)
        &&& after[id].producer_slot(role) is None
        &&& after[id].consumer_slot(role) is None
        &&& after[id].restored(role, ends.0, ends.1).is_fresh(CAPACITY as nat)
    } else if before[id].available(role) {
        &&& result == Ok::<(ProducerHandle, ConsumerHandle), RoleConflict>(
            (before[id].producer_slot(role).unwrap(), before[id].consumer_slot(role).unwrap()),
        )
        &&& after[id] == before[id].vacated(role)
    } else {
        &&& result == Err::<(ProducerHandle, ConsumerHandle), RoleConflict>(RoleConflict)
        &&& after == before
    }
}

/// The registry after `producer` and `consumer` were returned to `role`'s
/// slots of `id`: put into the record that is there, or into an empty one
/// where the identifier has none.
pub open spec fn returned(
    before: Records,
    id: Seq<char>,
    role: Role,
    producer: ProducerHandle,
    consumer: ConsumerHandle,
) -> Records {
    let base = if before.contains_key(id) {
        before[id]
    } else {
        Mailbox::spec_vacant()
    };
    before.insert(id, base.restored(role, producer, consumer))
}

/// Every identifier of `index` has a place among `count` records, and no two
/// identifiers share one.
spec fn wired(index: Map<Seq<char>, usize>, count: nat) -> bool {
    &&& forall|id: Seq<char>| #[trigger] index.contains_key(id) ==> index[id] < count
    &&& forall|a: Seq<char>, b: Seq<char>|
        #![trigger index[a], index[b]]
        index.contains_key(a) && index.contains_key(b) && index[a] == index[b] ==> a == b
}

/// The map that `index` and `records` stand for.
spec fn records_of(index: Map<Seq<char>, usize>, records: Seq<Mailbox>) -> Records {
    Map::new(|id: Seq<char>| index.contains_key(id), |id: Seq<char>| records[index[id] as int])
}

/// Replacing the record at the place of `id` replaces it in the map, and
/// nothing else.
proof fn lemma_record_updated(
    index: Map<Seq<char>, usize>,
    records: Seq<Mailbox>,
    id: Seq<char>,
    mailbox: Mailbox,
)
    requires
        wired(index, records.len()),
        index.contains_key(id),
    ensures
        records_of(index, records.update(index[id] as int, mailbox)) == records_of(
            index,
            records,
        ).insert(id, mailbox),
{
    let lhs = records_of(index, records.update(index[id] as int, mailbox));
    let rhs = records_of(index, records).insert(id, mailbox);
    assert forall|other: Seq<char>| lhs.contains_key(other) implies lhs[other] == rhs[other] by {
        if other != id {
            assert(index[other] != index[id]);
        }
    }
    assert(lhs =~= rhs);
}

/// Adding a record for an identifier that has none adds it to the map.
proof fn lemma_record_added(
    index: Map<Seq<char>, usize>,
    records: Seq<Mailbox>,
    id: Seq<char>,
    mailbox: Mailbox,
)
    requires
        wired(index, records.len()),
        !index.contains_key(id),
        records.len() <= usize::MAX,
    ensures
        wired(index.insert(id, records.len() as usize), records.len() + 1),
        records_of(index.insert(id, records.len() as usize), records.push(mailbox)) == records_of(
            index,
            records,
        ).insert(id, mailbox),
{
    let place = records.len() as usize;
    let grown = index.insert(id, place);
    assert forall|a: Seq<char>, b: Seq<char>|
        #![trigger grown[a], grown[b]]
        grown.contains_key(a) && grown.contains_key(b) && grown[a] == grown[b] implies a == b by {
        if a != id && b != id {
            assert(index[a] == index[b]);
        }
    }
    let lhs = records_of(grown, records.push(mailbox));
    let rhs = records_of(index, records).insert(id, mailbox);
    assert(lhs =~= rhs);
}

impl View for MailboxState {
    type V = Records;

    closed spec fn view(&self) -> Records {
        records_of(self.index@, self.records@)
    }
}

/// The place of `id`'s record, which is made first where there is none.
fn locate(index: &mut StringHashMap<usize>, records: &mut Vec<Mailbox>, id: &str) -> (r: (
    usize,
    bool,
))
    requires
        wired(old(index)@, old(records)@.len()),
    ensures
        wired(final(index)@, final(records)@.len()),
        final(index)@.contains_key(id@),
        final(index)@[id@] == r.0,
        created_or_found(
            records_of(old(index)@, old(records)@),
            id@,
            records_of(final(index)@, final(records)@),
            r.1,
        ),
{
    let ghost before = records_of(index@, records@);
    match index.get(id) {
        Some(place) => {
            assert(before.dom() =~= before.dom().insert(id@));
            (*place, false)
        },
        None => {
            let mailbox = Mailbox::open();
            let place: usize = records.len();
            proof {
                lemma_record_added(index@, records@, id@, mailbox);
            }
            records.push(mailbox);
            index.insert(id.to_owned(), place);
            assert(records_of(index@, records@).dom() =~= before.dom().insert(id@));
            (place, true)
        },
    }
}

impl MailboxState {
    #[verifier::type_invariant]
    spec fn well_formed(self) -> bool {
        wired(self.index@, self.records@.len())
    }

    /// A registry that knows no pairing identifier yet.
    pub fn new() -> (state: MailboxState)
        ensures
            state@ == Records::empty(),
    {
        let state = MailboxState { index: StringHashMap::new(), records: Vec::new() };
        assert(state@ =~= Records::empty());
        state
    }

    /// Moves the registry's parts out, to be worked on and put back.
    fn take_parts(&mut self) -> (parts: (StringHashMap<usize>, Vec<Mailbox>))
        ensures
            records_of(parts.0@, parts.1@) == old(self)@,
            wired(parts.0@, parts.1@.len()),
    {
        proof {
            use_type_invariant(&*self);
        }
        let mut taken = MailboxState::new();
        core::mem::swap(self, &mut taken);
        let MailboxState { index, records } = taken;
        (index, records)
    }

    /// Makes sure that `id` has a record, opening a fresh one, with all four
    /// ends in it, where it has none. Returns whether the record was made by
    /// this call: the moment at which the pairing identifier becomes active.
    pub fn get_or_create(&mut self, id: &str) -> (created: bool)
        ensures
            created_or_found(old(self)@, id@, final(self)@, created),
    {
        let (mut index, mut records) = self.take_parts();
        let (_, created) = locate(&mut index, &mut records, id);
        *self = MailboxState { index, records };
        created
    }

    /// Claims `role` on `id` for a new connection: hands out the producer end
    /// of the queue that `role` sends into and the consumer end of the queue
    /// that it receives from. The record is made first where `id` has none.
    /// Fails with `RoleConflict`, and changes nothing, exactly where the
    /// record of `id` lacks one of the two ends, which is the case while
    /// another connection plays `role`.
    pub fn checkout(&mut self, id: &str, role: Role) -> (result: Result<
        (ProducerHandle, ConsumerHandle),
        RoleConflict,
    >)
        ensures
            checked_out(old(self)@, id@, role, final(self)@, result),
            result is Ok <==> claimable(old(self)@, id@, role),
    {
        let (mut index, mut records) = self.take_parts();
        let (place, _) = locate(&mut index, &mut records, id);
        let ghost found = records@;
        let claimed = records[place].claim(role);
        proof {
            lemma_record_updated(index@, found, id@, records@[place as int]);
            assert(records@ =~= found.update(place as int, records@[place as int]));
        }
        *self = MailboxState { index, records };
        assert(self@.dom() =~= old(self)@.dom().insert(id@));
        match claimed {
            Some(ends) => {
                assert(self@[id@].restored(role, ends.0, ends.1) == found[place as int]);
                Ok(ends)
            },
            None => {
                assert(self@ =~= old(self)@);
                Err(RoleConflict)
            },
        }
    }

    /// Returns the two ends that a connection held to `role`'s slots of
    /// `id`, so that the next connection that plays `role` there can claim
    /// them. Where `id` has no record, they go into an empty one.
    pub fn return_handles(
        &mut self,
        id: &str,
        role: Role,
        producer: ProducerHandle,
        consumer: ConsumerHandle,
    )
        ensures
            final(self)@ == returned(old(self)@, id@, role, producer, consumer),
            claimable(final(self)@, id@, role),
    {
        let (mut index, mut records) = self.take_parts();
        match index.get(id) {
            Some(found) => {
                let place: usize = *found;
                let ghost before = records@;
                records[place].restore(role, producer, consumer);
                proof {
                    lemma_record_updated(index@, before, id@, records@[place as int]);
                    assert(records@ =~= before.update(place as int, records@[place as int]));
                }
            },
            None => {
                let mut mailbox = Mailbox::vacant();
                mailbox.restore(role, producer, consumer);
                let place: usize = records.len();
                proof {
                    lemma_record_added(index@, records@, id@, mailbox);
                }
                records.push(mailbox);
                index.insert(id.to_owned(), place);
            },
        }
        *self = MailboxState { index, records };
    }

    /// Whether `id` has a record.
    pub fn contains(&self, id: &str) -> (r: bool)
        ensures
            r == self@.contains_key(id@),
    {
        self.index.contains_key(id)
    }

    /// The record of `id`, if it has one.
    pub fn get(&self, id: &str) -> (r: Option<&Mailbox>)
        ensures
            match r {
                Some(mailbox) => self@.contains_key(id@) && *mailbox == self@[id@],
                None => !self@.contains_key(id@),
            },
    {
        proof {
            use_type_invariant(self);
        }
        match self.index.get(id) {
            Some(place) => Some(&self.records[*place]),
            None => None,
        }
    }

    /// Whether a claim of `role` on `id` would succeed now.
    pub fn is_claimable(&self, id: &str, role: Role) -> (r: bool)
        ensures
            r == claimable(self@, id@, role),
    {
        match self.get(id) {
            Some(mailbox) => mailbox.is_available(role),
            None => true,
        }
    }

    /// The number of pairing identifiers that have a record.
    pub fn len(&self) -> (n: usize)
        ensures
            n == self@.len(),
    {
        assert(self@.dom() =~= self.index@.dom());
        self.index.len()
    }
}

/// A registry that knows no pairing identifier yet.
pub fn new_state() -> (state: MailboxState)
    ensures
        state@ == Records::empty(),
{
    MailboxState::new()
}

/// In `record`, the two ends that `role` needs are there together or gone
/// together.
pub open spec fn paired_in(record: Mailbox, role: Role) -> bool {
    record.producer_slot(role) is Some <==> record.consumer_slot(role) is Some
}

/// The two ends that a role needs are in a record together or out of it
/// together, for every role of every record.
pub open spec fn paired(records: Records) -> bool {
    forall|id: Seq<char>, role: Role|
        records.contains_key(id) ==> #[trigger] paired_in(records[id], role)
}

/// A registry starts with its ends paired, and no operation parts them:
/// not the making of a record, not a claim, granted or refused, and not a
/// return. So a role is either free, with both of its ends in the record,
/// or taken, with both of them in the hands of one connection.
pub proof fn lemma_ends_stay_paired(
    before: Records,
    id: Seq<char>,
    role: Role,
    after: Records,
    created: bool,
    result: Result<(ProducerHandle, ConsumerHandle), RoleConflict>,
    producer: ProducerHandle,
    consumer: ConsumerHandle,
)
    requires
        paired(before),
    ensures
        paired(Records::empty()),
        created_or_found(before, id, after, created) ==> paired(after),
        checked_out(before, id, role, after, result) ==> paired(after),
        paired(returned(before, id, role, producer, consumer)),
{
    let made = created_or_found(before, id, after, created);
    let claimed = checked_out(before, id, role, after, result);
    if made || claimed {
        assert forall|other: Seq<char>, any: Role| after.contains_key(other) implies paired_in(
            after[other],
            any,
        ) by {
            if before.contains_key(other) {
                assert(paired_in(before[other], any));
            }
        }
    }
    let back = returned(before, id, role, producer, consumer);
    assert forall|other: Seq<char>, any: Role| back.contains_key(other) implies paired_in(
        back[other],
        any,
    ) by {
        if before.contains_key(other) {
            assert(paired_in(before[other], any));
        }
    }
}

/// A record, once made, is never taken away: whatever is done to the
/// registry, every identifier that it knew stays known.
pub proof fn lemma_records_are_kept(
    before: Records,
    id: Seq<char>,
    role: Role,
    after: Records,
    created: bool,
    result: Result<(ProducerHandle, ConsumerHandle), RoleConflict>,
    producer: ProducerHandle,
    consumer: ConsumerHandle,
    known: Seq<char>,
)
    requires
        before.contains_key(known),
    ensures
        created_or_found(before, id, after, created) ==> after.contains_key(known),
        checked_out(before, id, role, after, result) ==> after.contains_key(known),
        returned(before, id, role, producer, consumer).contains_key(known),
{
}

/// While a connection plays a role on an identifier, a second claim of
/// that role on that identifier is refused, and the refusal changes no
/// record: what the first connection holds, and what the registry holds for
/// everyone else, stays as it was.
pub proof fn lemma_second_claim_refused(
    before: Records,
    id: Seq<char>,
    role: Role,
    held: Records,
    first: Result<(ProducerHandle, ConsumerHandle), RoleConflict>,
    after: Records,
    second: Result<(ProducerHandle, ConsumerHandle), RoleConflict>,
)
    requires
        checked_out(before, id, role, held, first),
        first is Ok,
        checked_out(held, id, role, after, second),
    ensures
        second == Err::<(ProducerHandle, ConsumerHandle), RoleConflict>(RoleConflict),
        after == held,
{
}

/// A role stays taken until its own ends come back: no claim, of any role on
/// any identifier, makes a role claimable that was not.
pub proof fn lemma_claim_frees_nothing(
    before: Records,
    id: Seq<char>,
    role: Role,
    after: Records,
    result: Result<(ProducerHandle, ConsumerHandle), RoleConflict>,
    taken_id: Seq<char>,
    taken_role: Role,
)
    requires
        checked_out(before, id, role, after, result),
        !claimable(before, taken_id, taken_role),
    ensures
        !claimable(after, taken_id, taken_role),
{
}

/// A role stays taken until its own ends come back: the return of another
/// role's ends, or of ends on another identifier, does not make it
/// claimable.
pub proof fn lemma_return_frees_only_its_role(
    before: Records,
    id: Seq<char>,
    role: Role,
    producer: ProducerHandle,
    consumer: ConsumerHandle,
    taken_id: Seq<char>,
    taken_role: Role,
)
    requires
        !claimable(before, taken_id, taken_role),
        taken_id != id || taken_role != role,
    ensures
        !claimable(returned(before, id, role, producer, consumer), taken_id, taken_role),
{
}

/// Once a connection's ends are returned, whatever made it end, the next
/// claim of its role on its identifier succeeds, and it is handed exactly
/// the ends that were returned: none was lost on the way.
pub proof fn lemma_claim_after_return(
    before: Records,
    id: Seq<char>,
    role: Role,
    producer: ProducerHandle,
    consumer: ConsumerHandle,
    after: Records,
    result: Result<(ProducerHandle, ConsumerHandle), RoleConflict>,
)
    requires
        checked_out(returned(before, id, role, producer, consumer), id, role, after, result),
    ensures
        result == Ok::<(ProducerHandle, ConsumerHandle), RoleConflict>((producer, consumer)),
{
}

/// Returning the ends that a claim handed out undoes the claim: the record
/// of a known identifier is again what it was before.
pub proof fn lemma_return_undoes_claim(
    before: Records,
    id: Seq<char>,
    role: Role,
    held: Records,
    ends: (ProducerHandle, ConsumerHandle),
)
    requires
        before.contains_key(id),
        checked_out(before, id, role, held, Ok(ends)),
    ensures
        returned(held, id, role, ends.0, ends.1) == before,
{
    let after = returned(held, id, role, ends.0, ends.1);
    assert(after.dom() =~= before.dom());
    assert(after =~= before);
}

/// A claim on one identifier, granted or refused, leaves every other
/// identifier alone: whether the other is known, what its record holds, and
/// whether either role can be claimed on it.
pub proof fn lemma_claim_leaves_others(
    before: Records,
    id: Seq<char>,
    role: Role,
    after: Records,
    result: Result<(ProducerHandle, ConsumerHandle), RoleConflict>,
    other: Seq<char>,
    other_role: Role,
)
    requires
        checked_out(before, id, role, after, result),
        other != id,
    ensures
        after.contains_key(other) == before.contains_key(other),
        before.contains_key(other) ==> after[other] == before[other],
        claimable(after, other, other_role) == claimable(before, other, other_role),
{
}

/// The return of ends on one identifier leaves every other identifier
/// alone.
pub proof fn lemma_return_leaves_others(
    before: Records,
    id: Seq<char>,
    role: Role,
    producer: ProducerHandle,
    consumer: ConsumerHandle,
    other: Seq<char>,
    other_role: Role,
)
    requires
        other != id,
    ensures
        returned(before, id, role, producer, consumer).contains_key(other) == before.contains_key(
            other,
        ),
        before.contains_key(other) ==> returned(before, id, role, producer, consumer)[other]
            == before[other],
        claimable(returned(before, id, role, producer, consumer), other, other_role) == claimable(
            before,
            other,
            other_role,
        ),
{
}

/// A claim on one identifier is decided as if no claim had ever been made on
/// another: after any claim on `id`, a claim on a different identifier
/// succeeds exactly where it would have succeeded before, and a known
/// identifier hands out the very ends that it held before.
pub proof fn lemma_identifiers_isolated(
    before: Records,
    id: Seq<char>,
    role: Role,
    between: Records,
    result: Result<(ProducerHandle, ConsumerHandle), RoleConflict>,
    other: Seq<char>,
    other_role: Role,
    after: Records,
    other_result: Result<(ProducerHandle, ConsumerHandle), RoleConflict>,
)
    requires
        other != id,
        checked_out(before, id, role, between, result),
        checked_out(between, other, other_role, after, other_result),
    ensures
        other_result is Ok <==> claimable(before, other, other_role),
        before.contains_key(other) && other_result is Ok ==> other_result.unwrap() == (
            before[other].producer_slot(other_role).unwrap(),
            before[other].consumer_slot(other_role).unwrap(),
        ),
        after[id] == between[id],
{
}

/// The two roles of one identifier do not stand in each other's way: a
/// claim of one role leaves the other role as claimable as it was.
pub proof fn lemma_roles_independent(
    before: Records,
    id: Seq<char>,
    role: Role,
    after: Records,
    result: Result<(ProducerHandle, ConsumerHandle), RoleConflict>,
)
    requires
        checked_out(before, id, role, after, result),
    ensures
        claimable(after, id, role.peer()) == claimable(before, id, role.peer()),
{
}

} // verus!
