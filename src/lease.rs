use vstd::prelude::*;

verus! {

/// Seconds that a freshly created lease lives (ten hours).
pub const INITIAL_TTL: u64 = 36000;

/// A lease whose remaining time is under this many seconds (twelve hours)
/// is near expiry.
pub const WARN_WINDOW: u64 = 43200;

/// A renewal sets the expiry this many seconds (thirteen hours) after now.
pub const RENEW_WINDOW: u64 = 46800;

/// The mathematical value of a lease: timestamps are seconds since the epoch.
pub struct RoomView {
    pub channel_id: u64,
    pub name: Seq<char>,
    pub creator: u64,
    pub expire_date: u64,
}

/// Near expiry: the time left before `expire_date`, counted as zero once it
/// has passed, is under the warn window. Already expired leases qualify.
pub open spec fn near_expiry(expire_date: u64, now: u64) -> bool {
    (expire_date as int) < now + WARN_WINDOW
}

/// A lease whose expiry is already past, or is now, is near expiry.
pub proof fn past_expiry_is_near(expire_date: u64, now: u64)
    requires
        expire_date <= now,
    ensures
        near_expiry(expire_date, now),
{
}

/// The edge of the warn window: one second inside it is near expiry, the
/// window's full length away is not.
pub proof fn warn_window_edge(now: u64)
    requires
        now + WARN_WINDOW <= u64::MAX,
    ensures
        near_expiry(now, now),
        near_expiry((now + WARN_WINDOW - 1) as u64, now),
        !near_expiry((now + WARN_WINDOW) as u64, now),
{
}

/// The values of a sequence of leases.
pub open spec fn views(s: Seq<Room>) -> Seq<RoomView> {
    s.map_values(|x: Room| x@)
}

/// The lease of one voice room: which room, its name, who asked for it and
/// when it runs out.
pub struct Room {
    channel_id: u64,
    name: String,
    creator: u64,
    expire_date: u64,
}

impl View for Room {
    type V = RoomView;

    closed spec fn view(&self) -> RoomView {
        RoomView {
            channel_id: self.channel_id,
            name: self.name@,
            creator: self.creator,
            expire_date: self.expire_date,
        }
    }
}

impl Clone for Room {
    fn clone(&self) -> (r: Room)
        ensures
            r@ == self@,
    {
        Room {
            channel_id: self.channel_id,
            name: self.name.clone(),
            creator: self.creator,
            expire_date: self.expire_date,
        }
    }
}

impl Room {
    /// A new lease of `channel_id` for `creator`, running out `INITIAL_TTL`
    /// seconds after `now`.
    pub fn new(channel_id: u64, name: String, creator: u64, now: u64) -> (r: Room)
        requires
            now <= u64::MAX - INITIAL_TTL,
        ensures
            r@ == (RoomView {
                channel_id,
                name: name@,
                creator,
                expire_date: (now + INITIAL_TTL) as u64,
            }),
    {
        Room { channel_id, name, creator, expire_date: now + INITIAL_TTL }
    }

    /// A lease with every field given, as a stored record holds it.
    pub fn from_parts(channel_id: u64, name: String, creator: u64, expire_date: u64) -> (r: Room)
        ensures
            r@ == (RoomView { channel_id, name: name@, creator, expire_date }),
    {
        Room { channel_id, name, creator, expire_date }
    }

    /// The room that the lease is for.
    pub fn id(&self) -> (r: u64)
        ensures
            r == self@.channel_id,
    {
        self.channel_id
    }

    /// The room's display name.
    pub fn name(&self) -> (r: &String)
        ensures
            r@ == self@.name,
    {
        &self.name
    }

    /// The user who holds the lease.
    pub fn creator(&self) -> (r: u64)
        ensures
            r == self@.creator,
    {
        self.creator
    }

    /// When the lease runs out, in seconds since the epoch.
    pub fn expire_date(&self) -> (r: u64)
        ensures
            r == self@.expire_date,
    {
        self.expire_date
    }

    /// Whether the time left at `now` is under the warn window.
    pub fn is_almost_expired(&self, now: u64) -> (r: bool)
        ensures
            r == near_expiry(self@.expire_date, now),
    {
        let left: u64 = if self.expire_date >= now {
            self.expire_date - now
        } else {
            0
        };
        left < WARN_WINDOW
    }

    /// Whether `now` lies past the expiry.
    pub fn is_expired(&self, now: u64) -> (r: bool)
        ensures
            r == (now > self@.expire_date),
    {
        now > self.expire_date
    }

    /// Sets the expiry to `RENEW_WINDOW` seconds after `now`, whatever it was.
    pub fn prolong(&mut self, now: u64)
        requires
            now <= u64::MAX - RENEW_WINDOW,
        ensures
            final(self)@ == (RoomView { expire_date: (now + RENEW_WINDOW) as u64, ..old(self)@ }),
    {
        self.expire_date = now + RENEW_WINDOW;
    }
}

} // verus!
