use vstd::prelude::*;

use crate::allocator::IdAllocator;
use crate::errors::Error;
use crate::genetics::{combine_payloads, spec_combine_payload, spec_gender, Kitty};
use crate::random::{random_value, spec_random_value};

verus! {

/// A lifecycle event, emitted once per successful operation.
#[derive(Clone, Copy, PartialEq, Eq, Debug)]
pub enum Event {
    /// A kitty was created: owner, identifier, entity.
    KittyCreated(u64, u32, Kitty),
    /// A kitten was bred: owner, identifier, entity.
    KittyBred(u64, u32, Kitty),
}

/// The mathematical shape of an event: the payload is read as a byte
/// sequence.
pub enum EventView {
    Created(u64, u32, Seq<u8>),
    Bred(u64, u32, Seq<u8>),
}

impl View for Event {
    type V = EventView;

    open spec fn view(&self) -> EventView {
        match self {
            Event::KittyCreated(owner, id, kitty) => EventView::Created(*owner, *id, kitty@),
            Event::KittyBred(owner, id, kitty) => EventView::Bred(*owner, *id, kitty@),
        }
    }
}

/// The ownership registry: a persistent mapping from (owner, identifier) to
/// entity record, together with the identifier allocator and the log of
/// emitted events.
///
/// Identifiers are allocated globally and densely — the record with
/// identifier `i` was the `i`-th one stored, and records are never removed
/// or overwritten — so the records live in a vector indexed by identifier,
/// each entry carrying its owner.
pub struct Registry {
    records: Vec<(u64, Kitty)>,
    allocator: IdAllocator,
    events: Vec<Event>,
}

impl Registry {
    /// The registry read as a mapping from (owner, identifier) to genetic
    /// payload.
    pub closed spec fn spec_kitties(self) -> Map<(u64, u32), Seq<u8>> {
        Map::new(
            |k: (u64, u32)|
                (k.1 as int) < self.records@.len() && self.records@[k.1 as int].0 == k.0,
            |k: (u64, u32)| self.records@[k.1 as int].1@,
        )
    }

    /// The next identifier to be allocated.
    pub closed spec fn spec_next_id(self) -> u32 {
        self.allocator.spec_next()
    }

    /// The events emitted so far, oldest first.
    pub closed spec fn spec_events(self) -> Seq<EventView> {
        self.events@.map_values(|e: Event| e@)
    }

    /// Well-formed: the counter equals the number of stored records, so
    /// every identifier below the counter names exactly one record and the
    /// counter's value is fresh.
    pub closed spec fn wf(self) -> bool {
        self.records@.len() == self.allocator.spec_next()
    }

    /// An empty registry, as at system genesis: no records, no events, and
    /// the counter at zero.
    pub fn new() -> (r: Registry)
        ensures
            r.wf(),
            r.spec_next_id() == 0,
            r.spec_kitties() == Map::<(u64, u32), Seq<u8>>::empty(),
            r.spec_events() == Seq::<EventView>::empty(),
    {
        let r = Registry { records: Vec::new(), allocator: IdAllocator::new(), events: Vec::new() };
        proof {
            assert(r.spec_kitties() =~= Map::<(u64, u32), Seq<u8>>::empty());
            assert(r.spec_events() =~= Seq::<EventView>::empty());
        }
        r
    }

    /// Look up the record stored under (owner, identifier).
    pub fn kitties(&self, owner: u64, kitty_id: u32) -> (r: Option<Kitty>)
        ensures
            match r {
                Option::Some(kitty) => {
                    &&& self.spec_kitties().dom().contains((owner, kitty_id))
                    &&& kitty@ == self.spec_kitties()[(owner, kitty_id)]
                },
                Option::None => !self.spec_kitties().dom().contains((owner, kitty_id)),
            },
    {
        let idx = kitty_id as usize;
        if idx < self.records.len() {
            let entry = &self.records[idx];
            if entry.0 == owner {
                Some(entry.1)
            } else {
                None
            }
        } else {
            None
        }
    }

    /// Read the next identifier to be allocated.
    pub fn next_kitty_id(&self) -> (r: u32)
        ensures
            r == self.spec_next_id(),
    {
        self.allocator.next_kitty_id()
    }

    /// Read the events emitted so far, oldest first.
    pub fn events(&self) -> (r: &Vec<Event>)
        ensures
            r@.map_values(|e: Event| e@) == self.spec_events(),
    {
        &self.events
    }

    /// Create a new entity for `owner`, with a pseudo-random payload derived
    /// from the oracle's randomness seed and the per-call context index.
    ///
    /// On success the returned identifier is the old counter value, the
    /// counter advances by one, exactly one new record appears — under the
    /// previously unused key (owner, identifier) — and a creation event is
    /// emitted. The operation fails only with `IdOverflow`, exactly when the
    /// counter has reached its maximum, and then changes nothing.
    pub fn create(&mut self, owner: u64, seed: &[u8; 32], extrinsic_index: Option<u32>) -> (r:
        Result<u32, Error>)
        requires
            old(self).wf(),
        ensures
            final(self).wf(),
            match r {
                Result::Ok(id) => {
                    &&& old(self).spec_next_id() < u32::MAX
                    &&& id == old(self).spec_next_id()
                    &&& !old(self).spec_kitties().dom().contains((owner, id))
                    &&& final(self).spec_next_id() == old(self).spec_next_id() + 1
                    &&& final(self).spec_kitties() == old(self).spec_kitties().insert(
                        (owner, id),
                        spec_random_value(seed@, owner, extrinsic_index),
                    )
                    &&& final(self).spec_events() == old(self).spec_events().push(
                        EventView::Created(owner, id, spec_random_value(seed@, owner, extrinsic_index)),
                    )
                },
                Result::Err(e) => {
                    &&& e == Error::IdOverflow
                    &&& old(self).spec_next_id() == u32::MAX
                    &&& final(self).spec_kitties() == old(self).spec_kitties()
                    &&& final(self).spec_next_id() == old(self).spec_next_id()
                    &&& final(self).spec_events() == old(self).spec_events()
                },
            },
    {
        let current_id = match self.allocator.allocate_next_id() {
            Ok(id) => id,
            Err(e) => {
                return Err(e);
            },
        };
        let dna = random_value(owner, seed, extrinsic_index);
        let kitty = Kitty(dna);
        self.records.push((owner, kitty));
        self.events.push(Event::KittyCreated(owner, current_id, kitty));
        proof {
            assert(self.spec_kitties() =~= old(self).spec_kitties().insert(
                (owner, current_id),
                spec_random_value(seed@, owner, extrinsic_index),
            ));
            assert(self.spec_events() =~= old(self).spec_events().push(
                EventView::Created(owner, current_id, spec_random_value(seed@, owner, extrinsic_index)),
            ));
        }
        Ok(current_id)
    }

    /// Breed two entities owned by `owner` into a new one whose payload is
    /// the byte-wise crossover of the parents' payloads under a fresh random
    /// selector.
    ///
    /// Both parents are looked up first (`InvalidId` if either key is
    /// absent), then their genders are compared (`SameGender` if equal), and
    /// only then is an identifier allocated (`IdOverflow` exactly when the
    /// counter is at its maximum) — so a failed attempt changes nothing. On
    /// success the offspring is stored under the previously unused key
    /// (owner, identifier) and a breeding event is emitted.
    pub fn breed(
        &mut self,
        owner: u64,
        kitty_id_1: u32,
        kitty_id_2: u32,
        seed: &[u8; 32],
        extrinsic_index: Option<u32>,
    ) -> (r: Result<u32, Error>)
        requires
            old(self).wf(),
        ensures
            final(self).wf(),
            match r {
                Result::Ok(id) => {
                    &&& old(self).spec_kitties().dom().contains((owner, kitty_id_1))
                    &&& old(self).spec_kitties().dom().contains((owner, kitty_id_2))
                    &&& spec_gender(old(self).spec_kitties()[(owner, kitty_id_1)]) != spec_gender(
                        old(self).spec_kitties()[(owner, kitty_id_2)],
                    )
                    &&& old(self).spec_next_id() < u32::MAX
                    &&& id == old(self).spec_next_id()
                    &&& !old(self).spec_kitties().dom().contains((owner, id))
                    &&& final(self).spec_next_id() == old(self).spec_next_id() + 1
                    &&& final(self).spec_kitties() == old(self).spec_kitties().insert(
                        (owner, id),
                        spec_combine_payload(
                            old(self).spec_kitties()[(owner, kitty_id_1)],
                            old(self).spec_kitties()[(owner, kitty_id_2)],
                            spec_random_value(seed@, owner, extrinsic_index),
                        ),
                    )
                    &&& final(self).spec_events() == old(self).spec_events().push(
                        EventView::Bred(
                            owner,
                            id,
                            spec_combine_payload(
                                old(self).spec_kitties()[(owner, kitty_id_1)],
                                old(self).spec_kitties()[(owner, kitty_id_2)],
                                spec_random_value(seed@, owner, extrinsic_index),
                            ),
                        ),
                    )
                },
                Result::Err(e) => {
                    &&& final(self).spec_kitties() == old(self).spec_kitties()
                    &&& final(self).spec_next_id() == old(self).spec_next_id()
                    &&& final(self).spec_events() == old(self).spec_events()
                    &&& match e {
                        Error::InvalidId => {
                            ||| !old(self).spec_kitties().dom().contains((owner, kitty_id_1))
                            ||| !old(self).spec_kitties().dom().contains((owner, kitty_id_2))
                        },
                        Error::SameGender => {
                            &&& old(self).spec_kitties().dom().contains((owner, kitty_id_1))
                            &&& old(self).spec_kitties().dom().contains((owner, kitty_id_2))
                            &&& spec_gender(old(self).spec_kitties()[(owner, kitty_id_1)])
                                == spec_gender(old(self).spec_kitties()[(owner, kitty_id_2)])
                        },
                        Error::IdOverflow => {
                            &&& old(self).spec_kitties().dom().contains((owner, kitty_id_1))
                            &&& old(self).spec_kitties().dom().contains((owner, kitty_id_2))
                            &&& spec_gender(old(self).spec_kitties()[(owner, kitty_id_1)])
                                != spec_gender(old(self).spec_kitties()[(owner, kitty_id_2)])
                            &&& old(self).spec_next_id() == u32::MAX
                        },
                    }
                },
            },
    {
        let kitty1 = match self.kitties(owner, kitty_id_1) {
            Some(kitty) => kitty,
            None => {
                return Err(Error::InvalidId);
            },
        };
        let kitty2 = match self.kitties(owner, kitty_id_2) {
            Some(kitty) => kitty,
            None => {
                return Err(Error::InvalidId);
            },
        };
        if kitty1.gender() == kitty2.gender() {
            return Err(Error::SameGender);
        }
        let kitty_id = match self.allocator.allocate_next_id() {
            Ok(id) => id,
            Err(e) => {
                return Err(e);
            },
        };
        let selector = random_value(owner, seed, extrinsic_index);
        let new_dna = combine_payloads(&kitty1.0, &kitty2.0, &selector);
        let new_kitty = Kitty(new_dna);
        self.records.push((owner, new_kitty));
        self.events.push(Event::KittyBred(owner, kitty_id, new_kitty));
        proof {
            assert(self.spec_kitties() =~= old(self).spec_kitties().insert(
                (owner, kitty_id),
                spec_combine_payload(
                    old(self).spec_kitties()[(owner, kitty_id_1)],
                    old(self).spec_kitties()[(owner, kitty_id_2)],
                    spec_random_value(seed@, owner, extrinsic_index),
                ),
            ));
            assert(self.spec_events() =~= old(self).spec_events().push(
                EventView::Bred(
                    owner,
                    kitty_id,
                    spec_combine_payload(
                        old(self).spec_kitties()[(owner, kitty_id_1)],
                        old(self).spec_kitties()[(owner, kitty_id_2)],
                        spec_random_value(seed@, owner, extrinsic_index),
                    ),
                ),
            ));
        }
        Ok(kitty_id)
    }
}

/// `create` followed by a lookup of (owner, returned identifier) yields
/// exactly the entity just created: on success `create` leaves the map of
/// `pre` extended at that key with the payload derived for the call, and in
/// that map the key is present and holds that payload — which is what
/// `kitties` then returns.
pub proof fn lemma_create_then_lookup(
    pre: Registry,
    post: Registry,
    owner: u64,
    id: u32,
    seed: Seq<u8>,
    extrinsic_index: Option<u32>,
)
    requires
        post.spec_kitties() == pre.spec_kitties().insert(
            (owner, id),
            spec_random_value(seed, owner, extrinsic_index),
        ),
    ensures
        post.spec_kitties().dom().contains((owner, id)),
        post.spec_kitties()[(owner, id)] == spec_random_value(seed, owner, extrinsic_index),
{
}

/// Some owner holds a record under this identifier.
pub open spec fn spec_id_in_use(r: Registry, id: u32) -> bool {
    exists|owner: u64| r.spec_kitties().dom().contains((owner, id))
}

/// Every identifier a well-formed registry stores is below the counter — a
/// key at or above the counter is fresh, so the next allocation can never
/// overwrite a record — and every identifier below the counter is stored
/// under some owner.
pub proof fn lemma_registry_ids_dense(r: Registry)
    requires
        r.wf(),
    ensures
        forall|k: (u64, u32)|
            r.spec_kitties().dom().contains(k) ==> (k.1 as int) < r.spec_next_id() as int,
        forall|id: u32| (id as int) < r.spec_next_id() as int ==> #[trigger] spec_id_in_use(r, id),
{
    assert forall|id: u32| (id as int) < r.spec_next_id() as int implies #[trigger] spec_id_in_use(
        r,
        id,
    ) by {
        let owner = r.records@[id as int].0;
        assert(r.spec_kitties().dom().contains((owner, id)));
    }
}

} // verus!
