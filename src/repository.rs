use std::collections::HashMap;
use vstd::prelude::*;

use crate::lease::{views, Room, RoomView, RENEW_WINDOW};

verus! {

broadcast use vstd::std_specs::hash::group_hash_axioms;

/// Why a repository operation found nothing to work on.
#[derive(Debug, PartialEq, Eq, Structural)]
pub enum LeaseError {
    /// No lease is stored for the room.
    LeaseNotFound,
}

/// `listed` holds each stored lease exactly once, in some order, and nothing else.
pub open spec fn lists(rooms: Map<u64, RoomView>, listed: Seq<RoomView>) -> bool {
    &&& forall|i: int|
        0 <= i < listed.len() ==> #[trigger] rooms.contains_key(listed[i].channel_id)
            && rooms[listed[i].channel_id] == listed[i]
    &&& forall|k: u64|
        #[trigger] rooms.contains_key(k) ==> exists|i: int|
            0 <= i < listed.len() && listed[i].channel_id == k
    &&& forall|i: int, j: int|
        0 <= i < listed.len() && 0 <= j < listed.len() && listed[i].channel_id
            == listed[j].channel_id ==> i == j
}

/// Taking `token` from `before` answers `result` and leaves `after`: the room
/// it was bound to, if any, and the same tokens without it.
pub open spec fn takes(
    before: Map<u64, u64>,
    token: u64,
    result: Option<u64>,
    after: Map<u64, u64>,
) -> bool {
    &&& result == (if before.contains_key(token) {
        Some(before[token])
    } else {
        None::<u64>
    })
    &&& after == before.remove(token)
}

/// The lease `room` renewed at `now`: the same lease, expiring `RENEW_WINDOW`
/// seconds after `now`.
pub open spec fn renewed(room: RoomView, now: u64) -> RoomView {
    RoomView { expire_date: (now + RENEW_WINDOW) as u64, ..room }
}

/// A lease that was stored is listed afterwards with identical fields: a
/// listing of the leases after storing `room` holds `room` itself.
pub proof fn stored_lease_is_listed(rooms: Map<u64, RoomView>, room: RoomView, listed: Seq<RoomView>)
    requires
        lists(rooms.insert(room.channel_id, room), listed),
    ensures
        listed.contains(room),
{
    let after = rooms.insert(room.channel_id, room);
    assert(after.contains_key(room.channel_id));
    let i = choose|i: int| 0 <= i < listed.len() && listed[i].channel_id == room.channel_id;
    assert(after.contains_key(listed[i].channel_id));
    assert(listed[i] == room);
}

/// A token is redeemed at most once: taking the same token a second time
/// finds nothing.
pub proof fn token_taken_at_most_once(
    tokens: Map<u64, u64>,
    token: u64,
    first: Option<u64>,
    between: Map<u64, u64>,
    second: Option<u64>,
    after: Map<u64, u64>,
)
    requires
        takes(tokens, token, first, between),
        takes(between, token, second, after),
    ensures
        second is None,
{
}

/// Renewal is absolute from now: two leases that differ only in their expiry
/// are the same lease once renewed at the same time.
pub proof fn renewal_ignores_prior_expiry(a: RoomView, b: RoomView, now: u64)
    requires
        a.channel_id == b.channel_id,
        a.name == b.name,
        a.creator == b.creator,
        now <= u64::MAX - RENEW_WINDOW,
    ensures
        renewed(a, now) == renewed(b, now),
        renewed(a, now).expire_date == now + RENEW_WINDOW,
{
}

/// The repository: one lease per room, and the renewal tokens, each binding a
/// prompt message to the room that redeeming it renews.
pub struct DatabaseManager {
    rooms: Vec<Room>,
    room_map: Ghost<Map<u64, RoomView>>,
    messages: HashMap<u64, u64>,
}

impl DatabaseManager {
    /// The stored leases, by room.
    pub closed spec fn rooms(&self) -> Map<u64, RoomView> {
        self.room_map@
    }

    /// The outstanding renewal tokens: prompt message to room.
    pub closed spec fn messages(&self) -> Map<u64, u64> {
        self.messages@
    }

    /// Well-formed: at most one lease per room in the list, and the list
    /// holds exactly the leases of `rooms()`.
    pub closed spec fn wf(&self) -> bool {
        &&& forall|i: int, j: int|
            0 <= i < self.rooms@.len() && 0 <= j < self.rooms@.len() && (#[trigger] self.rooms@[i])@.channel_id
                == (#[trigger] self.rooms@[j])@.channel_id ==> i == j
        &&& forall|i: int|
            0 <= i < self.rooms@.len() ==> self.room_map@.contains_key(
                (#[trigger] self.rooms@[i])@.channel_id,
            ) && self.room_map@[self.rooms@[i]@.channel_id] == self.rooms@[i]@
        &&& forall|k: u64|
            #[trigger] self.room_map@.contains_key(k) ==> exists|i: int|
                0 <= i < self.rooms@.len() && self.rooms@[i]@.channel_id == k
    }

    /// An empty repository.
    pub fn new() -> (r: DatabaseManager)
        ensures
            r.wf(),
            r.rooms() == Map::<u64, RoomView>::empty(),
            r.messages() == Map::<u64, u64>::empty(),
    {
        DatabaseManager { rooms: Vec::new(), room_map: Ghost(Map::empty()), messages: HashMap::new() }
    }

    /// Where the lease of `id` stands in the list, if there is one.
    fn find(&self, id: u64) -> (r: Option<usize>)
        requires
            self.wf(),
        ensures
            match r {
                Some(i) => i < self.rooms@.len() && self.rooms@[i as int]@.channel_id == id,
                None => !self.rooms().contains_key(id),
            },
    {
        let mut i: usize = 0;
        while i < self.rooms.len()
            invariant
                i <= self.rooms@.len(),
                forall|j: int| 0 <= j < i ==> (#[trigger] self.rooms@[j])@.channel_id != id,
            decreases self.rooms@.len() - i,
        {
            if self.rooms[i].id() == id {
                return Some(i);
            }
            i = i + 1;
        }
        None
    }

    /// Stores `room`, replacing any lease of the same room.
    pub fn room_add(&mut self, room: Room)
        requires
            old(self).wf(),
        ensures
            final(self).wf(),
            final(self).rooms() == old(self).rooms().insert(room@.channel_id, room@),
            final(self).messages() == old(self).messages(),
    {
        let id = room.id();
        let ghost v = room@;
        match self.find(id) {
            Some(i) => {
                self.rooms.set(i, room);
                self.room_map = Ghost(self.room_map@.insert(id, v));
                assert forall|k: u64| #[trigger] self.room_map@.contains_key(k) implies exists|j: int|
                    0 <= j < self.rooms@.len() && self.rooms@[j]@.channel_id == k by {
                    if k != id {
                        let j = choose|j: int| 0 <= j < old(self).rooms@.len() && old(self).rooms@[j]@.channel_id == k;
                        assert(self.rooms@[j] == old(self).rooms@[j]);
                    } else {
                        assert(self.rooms@[i as int]@.channel_id == k);
                    }
                }
            },
            None => {
                self.rooms.push(room);
                self.room_map = Ghost(self.room_map@.insert(id, v));
                assert forall|k: u64| #[trigger] self.room_map@.contains_key(k) implies exists|j: int|
                    0 <= j < self.rooms@.len() && self.rooms@[j]@.channel_id == k by {
                    if k != id {
                        let j = choose|j: int| 0 <= j < old(self).rooms@.len() && old(self).rooms@[j]@.channel_id == k;
                        assert(self.rooms@[j] == old(self).rooms@[j]);
                    } else {
                        assert(self.rooms@[old(self).rooms@.len() as int]@.channel_id == k);
                    }
                }
            },
        }
    }

    /// Removes the lease of `id`; a missing lease is no error.
    pub fn room_delete(&mut self, id: u64)
        requires
            old(self).wf(),
        ensures
            final(self).wf(),
            final(self).rooms() == old(self).rooms().remove(id),
            final(self).messages() == old(self).messages(),
    {
        if let Some(i) = self.find(id) {
            let ghost before = self.rooms@;
            let _ = self.rooms.remove(i);
            self.room_map = Ghost(self.room_map@.remove(id));
            assert forall|j: int| 0 <= j < self.rooms@.len() implies
                #[trigger] self.rooms@[j] == if j < i { before[j] } else { before[j + 1] } by {}
            assert forall|k: u64| #[trigger] self.room_map@.contains_key(k) implies exists|j: int|
                0 <= j < self.rooms@.len() && self.rooms@[j]@.channel_id == k by {
                let j = choose|j: int| 0 <= j < before.len() && before[j]@.channel_id == k;
                if j < i {
                    assert(self.rooms@[j] == before[j]);
                } else {
                    assert(j != i);
                    assert(self.rooms@[j - 1] == before[j]);
                }
            }
        }
    }

    /// The lease of `id`, if one is stored.
    pub fn room_get(&self, id: u64) -> (r: Option<Room>)
        requires
            self.wf(),
        ensures
            match r {
                Some(room) => self.rooms().contains_key(id) && room@ == self.rooms()[id],
                None => !self.rooms().contains_key(id),
            },
    {
        match self.find(id) {
            Some(i) => Some(self.rooms[i].clone()),
            None => None,
        }
    }

    /// Renews the lease of `id` at `now`: its expiry becomes `RENEW_WINDOW`
    /// seconds after `now`, whatever it was.
    pub fn room_prolong(&mut self, id: u64, now: u64) -> (r: Result<(), LeaseError>)
        requires
            old(self).wf(),
            now <= u64::MAX - RENEW_WINDOW,
        ensures
            final(self).wf(),
            final(self).messages() == old(self).messages(),
            match r {
                Ok(()) => old(self).rooms().contains_key(id) && final(self).rooms() == old(
                    self,
                ).rooms().insert(id, renewed(old(self).rooms()[id], now)),
                Err(e) => e == LeaseError::LeaseNotFound && !old(self).rooms().contains_key(id)
                    && final(self).rooms() == old(self).rooms(),
            },
    {
        match self.room_get(id) {
            Some(mut room) => {
                room.prolong(now);
                self.room_add(room);
                Ok(())
            },
            None => Err(LeaseError::LeaseNotFound),
        }
    }

    /// A copy of every stored lease, in no particular order.
    pub fn room_list(&self) -> (r: Vec<Room>)
        requires
            self.wf(),
        ensures
            lists(self.rooms(), views(r@)),
    {
        let mut out: Vec<Room> = Vec::new();
        let mut i: usize = 0;
        while i < self.rooms.len()
            invariant
                self.wf(),
                i <= self.rooms@.len(),
                out@.len() == i,
                forall|j: int| 0 <= j < i ==> (#[trigger] out@[j])@ == self.rooms@[j]@,
            decreases self.rooms@.len() - i,
        {
            out.push(self.rooms[i].clone());
            i = i + 1;
        }
        let ghost listed = views(out@);
        assert forall|k: u64| #[trigger] self.rooms().contains_key(k) implies exists|j: int|
            0 <= j < listed.len() && listed[j].channel_id == k by {
            let j = choose|j: int| 0 <= j < self.rooms@.len() && self.rooms@[j]@.channel_id == k;
            assert(listed[j] == self.rooms@[j]@);
        }
        assert forall|a: int, b: int|
            0 <= a < listed.len() && 0 <= b < listed.len() && listed[a].channel_id
                == listed[b].channel_id implies a == b by {
            assert(listed[a] == self.rooms@[a]@);
            assert(listed[b] == self.rooms@[b]@);
        }
        out
    }

    /// Records that redeeming the prompt `message_id` renews `channel_id`,
    /// replacing what that message was bound to.
    pub fn message_add(&mut self, message_id: u64, channel_id: u64)
        requires
            old(self).wf(),
        ensures
            final(self).wf(),
            final(self).rooms() == old(self).rooms(),
            final(self).messages() == old(self).messages().insert(message_id, channel_id),
    {
        let ghost before = *self;
        let _ = self.messages.insert(message_id, channel_id);
        assert(self.rooms == before.rooms && self.room_map == before.room_map);
    }

    /// The room that the prompt `message_id` is bound to, if it is outstanding.
    pub fn message_get(&self, message_id: u64) -> (r: Option<u64>)
        ensures
            r == (if self.messages().contains_key(message_id) {
                Some(self.messages()[message_id])
            } else {
                None::<u64>
            }),
    {
        match self.messages.get(&message_id) {
            Some(c) => Some(*c),
            None => None,
        }
    }

    /// Removes the token of `message_id` without redeeming it; a missing
    /// token is no error.
    pub fn message_delete(&mut self, message_id: u64)
        requires
            old(self).wf(),
        ensures
            final(self).wf(),
            final(self).rooms() == old(self).rooms(),
            final(self).messages() == old(self).messages().remove(message_id),
    {
        let ghost before = *self;
        let _ = self.messages.remove(&message_id);
        assert(self.rooms == before.rooms && self.room_map == before.room_map);
    }

    /// Redeems the token of `message_id` in one step: answers the room it was
    /// bound to and removes it, so that it can be redeemed at most once.
    pub fn message_take(&mut self, message_id: u64) -> (r: Option<u64>)
        requires
            old(self).wf(),
        ensures
            final(self).wf(),
            final(self).rooms() == old(self).rooms(),
            takes(old(self).messages(), message_id, r, final(self).messages()),
    {
        let ghost before = *self;
        let r = self.messages.remove(&message_id);
        assert(self.rooms == before.rooms && self.room_map == before.room_map);
        r
    }
}

} // verus!
