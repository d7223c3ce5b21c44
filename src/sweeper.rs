use vstd::prelude::*;

use crate::lease::{near_expiry, views, Room, RoomView};
use crate::repository::DatabaseManager;

verus! {

/// The test that picks the leases near expiry at `now`.
pub open spec fn due_at(now: u64) -> spec_fn(RoomView) -> bool {
    |v: RoomView| near_expiry(v.expire_date, now)
}

/// The tokens after a sweep has recorded its prompts: for each delivered
/// prompt, in order, its message is bound to the room of the lease it was
/// sent for. An undelivered prompt records nothing.
pub open spec fn with_prompts(
    tokens: Map<u64, u64>,
    due: Seq<RoomView>,
    sent: Seq<Option<u64>>,
) -> Map<u64, u64>
    decreases sent.len(),
{
    if sent.len() == 0 {
        tokens
    } else {
        let before = with_prompts(tokens, due, sent.drop_last());
        match sent.last() {
            Some(message_id) => before.insert(message_id, due[sent.len() - 1].channel_id),
            None => before,
        }
    }
}

/// The leases of `rooms` that are near expiry at `now`, in their order.
/// Nothing else is chosen: an expired lease is warned, never reclaimed.
pub fn almost_expired_rooms(rooms: &Vec<Room>, now: u64) -> (r: Vec<Room>)
    ensures
        views(r@) == views(rooms@).filter(due_at(now)),
{
    let mut out: Vec<Room> = Vec::new();
    let mut i: usize = 0;
    while i < rooms.len()
        invariant
            i <= rooms@.len(),
            views(out@) == views(rooms@.subrange(0, i as int)).filter(due_at(now)),
        decreases rooms@.len() - i,
    {
        proof {
            let s = views(rooms@.subrange(0, i + 1));
            assert(s.drop_last() =~= views(rooms@.subrange(0, i as int)));
            assert(s.last() == rooms@[i as int]@);
            reveal(Seq::filter);
        }
        if rooms[i].is_almost_expired(now) {
            let ghost before = out@;
            out.push(rooms[i].clone());
            assert(views(out@) =~= views(before).push(rooms@[i as int]@));
        }
        i = i + 1;
    }
    assert(rooms@.subrange(0, rooms@.len() as int) =~= rooms@);
    out
}

/// Records the prompts of one sweep: `sent[i]` is the message that carried
/// the prompt for `due[i]`, or `None` where delivery failed. Each delivered
/// prompt becomes a token; a lease that already has one gets another.
pub fn record_prompts(db: &mut DatabaseManager, due: &Vec<Room>, sent: &Vec<Option<u64>>)
    requires
        old(db).wf(),
        sent@.len() == due@.len(),
    ensures
        final(db).wf(),
        final(db).rooms() == old(db).rooms(),
        final(db).messages() == with_prompts(old(db).messages(), views(due@), sent@),
{
    let mut i: usize = 0;
    while i < sent.len()
        invariant
            db.wf(),
            i <= sent@.len(),
            sent@.len() == due@.len(),
            db.rooms() == old(db).rooms(),
            db.messages() == with_prompts(
                old(db).messages(),
                views(due@),
                sent@.subrange(0, i as int),
            ),
        decreases sent@.len() - i,
    {
        proof {
            assert(sent@.subrange(0, i + 1).drop_last() =~= sent@.subrange(0, i as int));
        }
        if let Some(message_id) = sent[i] {
            db.message_add(message_id, due[i].id());
        }
        i = i + 1;
    }
    assert(sent@.subrange(0, sent@.len() as int) =~= sent@);
}

/// The text of the renewal prompt for the room named `name`.
pub fn renewal_prompt(name: &str) -> (r: String)
    ensures
        r@ == "Your channel `"@ + name@
            + "` will be deleted in 1 hour. Press :repeat: to delay for 12 hours"@,
{
    let mut text = String::from_str("Your channel `");
    text.append(name);
    text.append("` will be deleted in 1 hour. Press :repeat: to delay for 12 hours");
    text
}

} // verus!
