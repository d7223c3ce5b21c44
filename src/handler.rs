use vstd::prelude::*;

use crate::lease::RENEW_WINDOW;
use crate::repository::{renewed, DatabaseManager};

verus! {

/// The symbol whose reaction on a prompt asks for renewal (U+1F501).
pub const RENEW_SYMBOL: &'static str = "\u{1f501}";

/// A reaction observed on a message: which message, who reacted, and with
/// what symbol.
pub struct Reaction {
    pub message_id: u64,
    pub user_id: u64,
    pub emoji: String,
}

/// What the handler did with a reaction.
#[derive(Debug, PartialEq, Eq, Structural)]
pub enum Acknowledgment {
    /// Not a renewal request: another symbol, or the handler's own identity.
    Ignored,
    /// The message carries no outstanding token.
    TokenNotFound,
    /// The token was redeemed, but the room's lease is gone.
    LeaseNotFound(u64),
    /// The token was redeemed and the room's lease renewed; the prompt may be
    /// cleaned up.
    Renewed(u64),
}

/// Whether a reaction asks for renewal: the renewal symbol, from someone
/// other than `self_id`.
pub open spec fn asks_renewal(reaction: Reaction, self_id: u64) -> bool {
    reaction.emoji@ == RENEW_SYMBOL@ && reaction.user_id != self_id
}

/// Consumes acknowledgments of renewal prompts.
pub struct Handler {
    self_id: u64,
}

impl Handler {
    /// A handler that ignores reactions of `self_id`, its own identity.
    pub fn new(self_id: u64) -> (r: Handler)
        ensures
            r.self_id() == self_id,
    {
        Handler { self_id }
    }

    /// The identity whose reactions the handler ignores.
    pub closed spec fn self_id(&self) -> u64 {
        self.self_id
    }

    /// Handles `reaction` at `now`. A renewal request redeems the token of its
    /// message, and if that token named a stored lease, renews the lease.
    pub fn reaction_add(&self, db: &mut DatabaseManager, reaction: &Reaction, now: u64) -> (r:
        Acknowledgment)
        requires
            old(db).wf(),
            now <= u64::MAX - RENEW_WINDOW,
        ensures
            final(db).wf(),
            !asks_renewal(*reaction, self.self_id()) ==> r == Acknowledgment::Ignored
                && final(db).rooms() == old(db).rooms() && final(db).messages() == old(
                db,
            ).messages(),
            asks_renewal(*reaction, self.self_id()) && !old(db).messages().contains_key(
                reaction.message_id,
            ) ==> r == Acknowledgment::TokenNotFound && final(db).rooms() == old(db).rooms()
                && final(db).messages() == old(db).messages(),
            asks_renewal(*reaction, self.self_id()) && old(db).messages().contains_key(
                reaction.message_id,
            ) ==> ({
                let room = old(db).messages()[reaction.message_id];
                &&& final(db).messages() == old(db).messages().remove(reaction.message_id)
                &&& if old(db).rooms().contains_key(room) {
                    r == Acknowledgment::Renewed(room) && final(db).rooms() == old(
                        db,
                    ).rooms().insert(room, renewed(old(db).rooms()[room], now))
                } else {
                    r == Acknowledgment::LeaseNotFound(room) && final(db).rooms() == old(
                        db,
                    ).rooms()
                }
            }),
    {
        let symbol = String::from_str(RENEW_SYMBOL);
        if !(reaction.emoji == symbol) || reaction.user_id == self.self_id {
            return Acknowledgment::Ignored;
        }
        match db.message_take(reaction.message_id) {
            None => Acknowledgment::TokenNotFound,
            Some(room) => match db.room_prolong(room, now) {
                Ok(()) => Acknowledgment::Renewed(room),
                Err(_) => Acknowledgment::LeaseNotFound(room),
            },
        }
    }
}

} // verus!
