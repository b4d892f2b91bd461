//! One client's connection to a room of the relay, as the decisions it
//! takes: what to tell the room registry when the connection starts and
//! stops, and whether a client that was last heard of at some time is still
//! alive. Sending the messages, the timer and the clock are the caller's.

use vstd::prelude::*;

verus! {

/// The time between two liveness pings, in milliseconds.
pub const HEARTBEAT_INTERVAL: u64 = 5000;

/// The time after which a client that was not heard of counts as gone, in
/// milliseconds.
pub const CLIENT_TIMEOUT: u64 = 10000;

/// The bits of an identifier that hold its version and its variant.
pub const VERSION_AND_VARIANT: u128 = 0x0000_0000_0000_f000_c000_0000_0000_0000;

/// Version 4, random, in the variant of RFC 9562.
pub const RANDOM_VERSION_AND_VARIANT: u128 = 0x0000_0000_0000_4000_8000_0000_0000_0000;

/// Tells the room registry that a client joins a room.
#[derive(Clone, Copy, Debug, PartialEq, Eq, Structural)]
pub struct Connect {
    pub lobby_id: u128,
    pub self_id: u128,
}

/// Tells the room registry that a client leaves a room.
#[derive(Clone, Copy, Debug, PartialEq, Eq, Structural)]
pub struct Disconnect {
    pub id: u128,
    pub room_id: u128,
}

/// Whether a connection goes on or stops.
#[derive(Clone, Copy, Debug, PartialEq, Eq, Structural)]
pub enum Running {
    Stop,
    Continue,
}

/// What to do when the heartbeat timer fires.
#[derive(Clone, Copy, Debug, PartialEq, Eq, Structural)]
pub enum Beat {
    /// The client was heard of in time: send it a ping.
    Ping,
    /// The client was not heard of for too long: tell the registry that it
    /// leaves, and stop.
    TimedOut(Disconnect),
}

/// Whether `id` is marked as a random identifier: version 4 in the variant
/// of RFC 9562.
pub open spec fn is_random_id(id: u128) -> bool {
    id & VERSION_AND_VARIANT == RANDOM_VERSION_AND_VARIANT
}

/// What a [`WsConn`] holds.
pub struct ConnState {
    /// The room that the client is in.
    pub room: u128,
    /// The client's own identifier.
    pub id: u128,
    /// When the client was last heard of, in milliseconds on the caller's
    /// clock.
    pub hb: int,
}

impl ConnState {
    /// The time since the client was last heard of, and 0 where the clock
    /// reads earlier than that.
    pub open spec fn silence(self, now: int) -> int {
        if now >= self.hb {
            now - self.hb
        } else {
            0
        }
    }

    /// Whether the client counts as gone at `now`.
    pub open spec fn timed_out(self, now: int) -> bool {
        self.silence(now) > CLIENT_TIMEOUT
    }

    /// The message that takes the client out of its room.
    pub open spec fn leave(self) -> Disconnect {
        Disconnect { id: self.id, room_id: self.room }
    }
}

/// The connection of one client to one room.
pub struct WsConn {
    room: u128,
    hb: u64,
    id: u128,
}

impl View for WsConn {
    type V = ConnState;

    closed spec fn view(&self) -> ConnState {
        ConnState { room: self.room, id: self.id, hb: self.hb as int }
    }
}

/// A fresh random identifier, from `uuid::Uuid::new_v4` as a 128-bit
/// number. Which one comes is open; each has version 4 and the variant of
/// RFC 9562 in its marker bits. The call panics only where the operating
/// system hands out no random bytes.
#[verifier::external_body]
fn random_id() -> (id: u128)
    ensures
        is_random_id(id),
{
    uuid::Uuid::new_v4().as_u128()
}

impl WsConn {
    /// The connection of the client `id` to `room`, heard of at `now`.
    pub fn with_id(room: u128, id: u128, now: u64) -> (conn: Self)
        ensures
            conn@ == (ConnState { room, id, hb: now as int }),
    {
        WsConn { room, hb: now, id }
    }

    /// The connection of a new client to `room`, heard of at `now`, under a
    /// fresh random identifier.
    pub fn new(room: u128, now: u64) -> (conn: Self)
        ensures
            conn@.room == room,
            conn@.hb == now,
            is_random_id(conn@.id),
    {
        Self::with_id(room, random_id(), now)
    }

    /// The room that the client is in.
    pub fn room(&self) -> (room: u128)
        ensures
            room == self@.room,
    {
        self.room
    }

    /// The client's own identifier.
    pub fn id(&self) -> (id: u128)
        ensures
            id == self@.id,
    {
        self.id
    }

    /// When the client was last heard of.
    pub fn last_heard(&self) -> (at: u64)
        ensures
            at == self@.hb,
    {
        self.hb
    }

    /// The connection starts: the message that puts the client into its
    /// room.
    pub fn started(&self) -> (join: Connect)
        ensures
            join == (Connect { lobby_id: self@.room, self_id: self@.id }),
    {
        Connect { lobby_id: self.room, self_id: self.id }
    }

    /// The registry answered the join, or failed to: the connection goes on
    /// after an answer and stops without one.
    pub fn joined(&self, answered: bool) -> (running: Running)
        ensures
            running == if answered {
                Running::Continue
            } else {
                Running::Stop
            },
    {
        if answered {
            Running::Continue
        } else {
            Running::Stop
        }
    }

    /// The connection stops: the message that takes the client out of its
    /// room, and the word to stop.
    pub fn stopping(&self) -> (end: (Disconnect, Running))
        ensures
            end.0 == self@.leave(),
            end.1 == Running::Stop,
    {
        (Disconnect { id: self.id, room_id: self.room }, Running::Stop)
    }

    /// The heartbeat timer fired at `now`: a client that was silent for
    /// longer than [`CLIENT_TIMEOUT`] is taken out of its room, any other
    /// is sent a ping.
    pub fn hb(&self, now: u64) -> (beat: Beat)
        ensures
            beat == if self@.timed_out(now as int) {
                Beat::TimedOut(self@.leave())
            } else {
                Beat::Ping
            },
    {
        let silence: u64 = if now >= self.hb {
            now - self.hb
        } else {
            0
        };
        if silence > CLIENT_TIMEOUT {
            Beat::TimedOut(Disconnect { id: self.id, room_id: self.room })
        } else {
            Beat::Ping
        }
    }

    /// The client was heard of at `now`.
    pub fn heard(&mut self, now: u64)
        ensures
            final(self)@ == (ConnState { hb: now as int, ..old(self)@ }),
    {
        self.hb = now;
    }
}

} // verus!
