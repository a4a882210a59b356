//! Connection registry and message fan-out.
//!
//! The manager tracks every live connection, owns each connection's private
//! outbound queue together with the single global broadcast channel, and
//! routes messages either to one user's connections or to all of them.
//! Registration inserts a record keyed by a freshly generated connection id;
//! removal is idempotent and is the only way a record's queue becomes
//! unreachable for future sends.

use vstd::prelude::*;
use vstd::string::StringExecFns;

use crate::channel::{spec_publish, Channel, ChannelModel, Receiver, RecvOutcome};
use crate::errors::AppError;
use crate::message::WebSocketMessage;
use crate::{GLOBAL_CHANNEL_CAPACITY, PRIVATE_CHANNEL_CAPACITY};

verus! {

/// Mathematical model of one connection record.
pub ghost struct ConnectionModel {
    pub user_id: u128,
    pub connection_id: Seq<char>,
    pub sender: ChannelModel,
}

/// Mathematical model of the whole manager: the registry contents in
/// insertion order, and the global broadcast channel.
pub ghost struct ManagerModel {
    pub connections: Seq<ConnectionModel>,
    pub global: ChannelModel,
}

/// Some record in `cs` has this connection id.
pub open spec fn contains_id(cs: Seq<ConnectionModel>, id: Seq<char>) -> bool {
    exists|i: int| 0 <= i < cs.len() && (#[trigger] cs[i]).connection_id == id
}

/// No two records in `cs` share a connection id.
pub open spec fn distinct_ids(cs: Seq<ConnectionModel>) -> bool {
    forall|i: int, j: int|
        0 <= i < j < cs.len() ==> (#[trigger] cs[i]).connection_id != (#[trigger] cs[j]).connection_id
}

/// Index of the record with this connection id, provided one exists.
pub open spec fn id_index(cs: Seq<ConnectionModel>, id: Seq<char>) -> int {
    choose|i: int| 0 <= i < cs.len() && (#[trigger] cs[i]).connection_id == id
}

/// What removal does to the registry: the record with this id disappears if
/// present, and nothing happens otherwise.
pub open spec fn spec_remove(cs: Seq<ConnectionModel>, id: Seq<char>) -> Seq<ConnectionModel> {
    if contains_id(cs, id) {
        cs.remove(id_index(cs, id))
    } else {
        cs
    }
}

/// What a targeted send does to one record: the message is appended to the
/// record's private queue exactly when the record belongs to the target user.
pub open spec fn send_one(c: ConnectionModel, user_id: u128, m: WebSocketMessage) -> ConnectionModel {
    if c.user_id == user_id {
        ConnectionModel {
            user_id: c.user_id,
            connection_id: c.connection_id,
            sender: spec_publish(c.sender, m),
        }
    } else {
        c
    }
}

/// What a targeted send does to the registry.
pub open spec fn spec_send_to_user(
    cs: Seq<ConnectionModel>,
    user_id: u128,
    m: WebSocketMessage,
) -> Seq<ConnectionModel> {
    Seq::new(cs.len(), |i: int| send_one(cs[i], user_id, m))
}

/// The connection ids belonging to this user, in registry order.
pub open spec fn user_ids(cs: Seq<ConnectionModel>, user_id: u128) -> Seq<Seq<char>>
    decreases cs.len(),
{
    if cs.len() == 0 {
        Seq::empty()
    } else if cs.last().user_id == user_id {
        user_ids(cs.drop_last(), user_id).push(cs.last().connection_id)
    } else {
        user_ids(cs.drop_last(), user_id)
    }
}

/// The views of a sequence of strings.
pub open spec fn seq_views(ss: Seq<String>) -> Seq<Seq<char>> {
    Seq::new(ss.len(), |i: int| ss[i]@)
}

/// Every private queue of this user still has room for one more message.
pub open spec fn can_deliver_to_user(cs: Seq<ConnectionModel>, user_id: u128) -> bool {
    forall|i: int|
        0 <= i < cs.len() && (#[trigger] cs[i]).user_id == user_id
            ==> cs[i].sender.history.len() < usize::MAX as int
}

/// One live client connection: the owning user, the unique connection id,
/// and the sending side of the connection's private outbound queue.
pub struct WebSocketConnection {
    pub user_id: u128,
    pub connection_id: String,
    pub sender: Channel,
}

impl View for WebSocketConnection {
    type V = ConnectionModel;

    open spec fn view(&self) -> ConnectionModel {
        ConnectionModel {
            user_id: self.user_id,
            connection_id: self.connection_id@,
            sender: self.sender@,
        }
    }
}

/// What a caller gets back from registration: the new connection id and the
/// two read cursors the connection's writer task multiplexes — one for the
/// private queue, one for the global broadcast channel.
pub struct ConnectionHandle {
    pub connection_id: String,
    pub private_receiver: Receiver,
    pub global_receiver: Receiver,
}

/// The connection registry and fan-out engine.
pub struct WebSocketManager {
    connections: Vec<WebSocketConnection>,
    global_sender: Channel,
}

impl View for WebSocketManager {
    type V = ManagerModel;

    closed spec fn view(&self) -> ManagerModel {
        ManagerModel {
            connections: Seq::new(self.connections@.len(), |i: int| self.connections@[i]@),
            global: self.global_sender@,
        }
    }
}

/// Relies on uuid::Uuid::new_v4 and its hyphenated text form: a random
/// version-4 id rendered as 36 characters. Nothing is assumed about which id
/// comes out.
#[verifier::external_body]
fn fresh_connection_id() -> (r: String)
    ensures
        r@.len() == 36,
{
    uuid::Uuid::new_v4().to_string()
}

/// Relies on chrono::Utc::now for the current wall-clock time, reduced to
/// milliseconds since the Unix epoch. Nothing is assumed about the value.
#[verifier::external_body]
fn now_millis() -> i64 {
    chrono::Utc::now().timestamp_millis()
}

impl WebSocketManager {
    /// Registry invariant: connection ids are unique, every private queue is
    /// a well-formed channel of the private capacity, and the global channel
    /// is a well-formed channel of the global capacity.
    pub closed spec fn wf(&self) -> bool {
        &&& distinct_ids(self@.connections)
        &&& forall|i: int|
            0 <= i < self.connections@.len() ==> (#[trigger] self.connections@[i]).sender.wf()
        &&& forall|i: int|
            0 <= i < self@.connections.len()
                ==> (#[trigger] self@.connections[i]).sender.capacity == PRIVATE_CHANNEL_CAPACITY as nat
        &&& self.global_sender.wf()
        &&& self@.global.capacity == GLOBAL_CHANNEL_CAPACITY as nat
    }

    /// A fresh manager: no connections, an empty global channel.
    pub fn new() -> (m: WebSocketManager)
        ensures
            m.wf(),
            m@.connections == Seq::<ConnectionModel>::empty(),
            m@.global.history == Seq::<WebSocketMessage>::empty(),
            m@.global.capacity == GLOBAL_CHANNEL_CAPACITY as nat,
    {
        let m = WebSocketManager {
            connections: Vec::new(),
            global_sender: Channel::new(GLOBAL_CHANNEL_CAPACITY),
        };
        proof {
            assert(m@.connections =~= Seq::<ConnectionModel>::empty());
        }
        m
    }

    /// Number of currently registered connections.
    pub fn get_connection_count(&self) -> (n: usize)
        ensures
            n as int == self@.connections.len(),
    {
        self.connections.len()
    }

    /// Remove the record with this connection id, if present. Safe to call
    /// any number of times and on unknown ids: removing an absent id changes
    /// nothing, so the second of two racing removals is a no-op.
    pub fn remove_connection(&mut self, connection_id: &String)
        requires
            old(self).wf(),
        ensures
            final(self).wf(),
            final(self)@.connections == spec_remove(old(self)@.connections, connection_id@),
            final(self)@.global == old(self)@.global,
            contains_id(old(self)@.connections, connection_id@)
                ==> final(self)@.connections.len() == old(self)@.connections.len() - 1,
            !contains_id(old(self)@.connections, connection_id@)
                ==> final(self)@.connections == old(self)@.connections,
    {
        let ghost cs0 = self@.connections;
        let n = self.connections.len();
        let mut i: usize = 0;
        let mut found: usize = n;
        #[verifier::loop_isolation(false)]
        while i < n
            invariant
                i <= n,
                found <= n,
                *self == *old(self),
                found == n ==> forall|j: int|
                    0 <= j < i ==> (#[trigger] cs0[j]).connection_id != connection_id@,
                found < n ==> cs0[found as int].connection_id == connection_id@,
            decreases n - i,
        {
            if found == n && self.connections[i].connection_id == *connection_id {
                found = i;
            }
            i = i + 1;
        }
        if found < n {
            proof {
                let k = id_index(cs0, connection_id@);
                assert(contains_id(cs0, connection_id@));
                assert(0 <= k < cs0.len() && cs0[k].connection_id == connection_id@);
                if k != found as int {
                    assert(cs0[k].connection_id == cs0[found as int].connection_id);
                    assert(false);
                }
            }
            self.connections.remove(found);
            proof {
                assert(self@.connections =~= cs0.remove(found as int));
                assert forall|a: int, b: int| 0 <= a < b < self@.connections.len() implies (
                    #[trigger] self@.connections[a]).connection_id != (#[trigger] self@.connections[b]).connection_id by {
                    let a0 = if a < found as int { a } else { a + 1 };
                    let b0 = if b < found as int { b } else { b + 1 };
                    assert(self@.connections[a] == cs0[a0]);
                    assert(self@.connections[b] == cs0[b0]);
                }
            }
        } else {
            proof {
                assert(!contains_id(cs0, connection_id@));
            }
        }
    }

    /// Register a new connection for this user: allocate a fresh connection
    /// id, insert a record with an empty private queue, and hand back the id
    /// together with read cursors for the private queue and for the global
    /// channel. In the overwhelmingly common case that the generated id is
    /// new, the connection count grows by exactly one; if the generator ever
    /// repeated an id, the old record would be replaced, exactly as a map
    /// insertion would do.
    pub fn add_connection(&mut self, user_id: u128) -> (h: ConnectionHandle)
        requires
            old(self).wf(),
        ensures
            final(self).wf(),
            h.connection_id@.len() == 36,
            final(self)@.connections == spec_remove(old(self)@.connections, h.connection_id@).push(
                ConnectionModel {
                    user_id: user_id,
                    connection_id: h.connection_id@,
                    sender: ChannelModel {
                        capacity: PRIVATE_CHANNEL_CAPACITY as nat,
                        history: Seq::empty(),
                    },
                },
            ),
            final(self)@.global == old(self)@.global,
            h.private_receiver.next == 0,
            h.global_receiver.next as int == old(self)@.global.published(),
            !contains_id(old(self)@.connections, h.connection_id@)
                ==> final(self)@.connections.len() == old(self)@.connections.len() + 1,
    {
        let connection_id = fresh_connection_id();
        self.remove_connection(&connection_id);
        let ghost cs1 = self@.connections;
        proof {
            assert forall|j: int| 0 <= j < cs1.len() implies (#[trigger] cs1[j]).connection_id
                != connection_id@ by {
                let cs0 = old(self)@.connections;
                if contains_id(cs0, connection_id@) {
                    let k = id_index(cs0, connection_id@);
                    let j0 = if j < k { j } else { j + 1 };
                    assert(cs1[j] == cs0[j0]);
                }
            }
        }
        let sender = Channel::new(PRIVATE_CHANNEL_CAPACITY);
        let record = WebSocketConnection {
            user_id,
            connection_id: connection_id.clone(),
            sender,
        };
        self.connections.push(record);
        let private_receiver = Receiver { next: 0 };
        let global_receiver = self.global_sender.subscribe();
        proof {
            assert(self@.connections =~= cs1.push(ConnectionModel {
                user_id: user_id,
                connection_id: connection_id@,
                sender: ChannelModel {
                    capacity: PRIVATE_CHANNEL_CAPACITY as nat,
                    history: Seq::empty(),
                },
            }));
        }
        ConnectionHandle { connection_id, private_receiver, global_receiver }
    }

    /// Enqueue the message on the private queue of every connection owned by
    /// this user, in registry order. A user with no connections is simply
    /// offline: the call succeeds and changes nothing.
    pub fn send_to_user(&mut self, user_id: u128, message: WebSocketMessage) -> (r: Result<
        (),
        AppError,
    >)
        requires
            old(self).wf(),
            can_deliver_to_user(old(self)@.connections, user_id),
        ensures
            final(self).wf(),
            r == Result::<(), AppError>::Ok(()),
            final(self)@.connections == spec_send_to_user(old(self)@.connections, user_id, message),
            final(self)@.global == old(self)@.global,
    {
        let ghost cs0 = self@.connections;
        let ghost v0 = self.connections@;
        let n = self.connections.len();
        let mut i: usize = 0;
        #[verifier::loop_isolation(false)]
        while i < n
            invariant
                i <= n,
                n == self.connections@.len(),
                self.global_sender == old(self).global_sender,
                forall|j: int| i <= j < n ==> self.connections@[j] == v0[j],
                forall|j: int|
                    0 <= j < i ==> (#[trigger] self.connections@[j])@ == send_one(cs0[j], user_id, message)
                        && self.connections@[j].sender.wf(),
            decreases n - i,
        {
            if self.connections[i].user_id == user_id {
                let m = message.clone();
                proof {
                    assert(self.connections@[i as int] == v0[i as int]);
                    assert(v0[i as int]@ == cs0[i as int]);
                    assert(cs0[i as int].user_id == user_id);
                }
                self.connections[i].sender.publish(m);
            }
            i = i + 1;
        }
        proof {
            assert(self@.connections =~= spec_send_to_user(cs0, user_id, message));
            assert forall|a: int, b: int| 0 <= a < b < self@.connections.len() implies (
                #[trigger] self@.connections[a]).connection_id != (#[trigger] self@.connections[b]).connection_id by {
                assert(cs0[a].connection_id != cs0[b].connection_id);
            }
        }
        Ok(())
    }

    /// Publish the message once on the global broadcast channel. Delivery to
    /// zero current subscribers is not an error.
    pub fn send_to_all(&mut self, message: WebSocketMessage) -> (r: Result<(), AppError>)
        requires
            old(self).wf(),
            old(self)@.global.history.len() < usize::MAX as int,
        ensures
            final(self).wf(),
            r == Result::<(), AppError>::Ok(()),
            final(self)@.global == spec_publish(old(self)@.global, message),
            final(self)@.connections == old(self)@.connections,
    {
        self.global_sender.publish(message);
        proof {
            assert(self@.connections =~= old(self)@.connections);
        }
        Ok(())
    }

    /// The connection ids currently registered for this user, in registry
    /// order. The snapshot may be stale relative to concurrent mutation.
    pub fn get_user_connections(&self, user_id: u128) -> (ids: Vec<String>)
        ensures
            seq_views(ids@) == user_ids(self@.connections, user_id),
    {
        let ghost cs = self@.connections;
        let n = self.connections.len();
        let mut ids: Vec<String> = Vec::new();
        let mut i: usize = 0;
        proof {
            assert(seq_views(ids@) =~= user_ids(cs.take(0), user_id));
        }
        #[verifier::loop_isolation(false)]
        while i < n
            invariant
                i <= n,
                seq_views(ids@) == user_ids(cs.take(i as int), user_id),
            decreases n - i,
        {
            let ghost ids_pre = ids@;
            if self.connections[i].user_id == user_id {
                ids.push(self.connections[i].connection_id.clone());
            }
            proof {
                let t1 = cs.take(i + 1 as int);
                assert(t1.drop_last() =~= cs.take(i as int));
                assert(t1.last() == cs[i as int]);
                if cs[i as int].user_id == user_id {
                    assert(seq_views(ids@) =~= user_ids(cs.take(i as int), user_id).push(
                        cs[i as int].connection_id,
                    ));
                } else {
                    assert(ids@ == ids_pre);
                }
            }
            i = i + 1;
        }
        proof {
            assert(cs.take(n as int) =~= cs);
        }
        ids
    }

    /// One non-blocking receive attempt on the private queue of the given
    /// connection. If no record with this id exists — it was removed, or
    /// never registered — the queue is gone and the outcome is `Closed`.
    pub fn poll_connection(&self, connection_id: &String, r: &mut Receiver) -> (out: RecvOutcome)
        requires
            self.wf(),
        ensures
            !contains_id(self@.connections, connection_id@) ==> {
                &&& out == RecvOutcome::Closed
                &&& final(r).next == old(r).next
            },
            contains_id(self@.connections, connection_id@) ==> {
                let ch = self@.connections[id_index(self@.connections, connection_id@)].sender;
                &&& ch.published() <= old(r).next as int ==> out == RecvOutcome::Empty
                    && final(r).next == old(r).next
                &&& (old(r).next as int) < ch.first_retained() ==> out == RecvOutcome::Lagged(
                    (ch.first_retained() - old(r).next) as usize,
                ) && final(r).next as int == ch.first_retained()
                &&& (ch.first_retained() <= old(r).next as int && (old(r).next as int)
                    < ch.published()) ==> out == RecvOutcome::Message(
                    ch.history[old(r).next as int],
                ) && final(r).next == old(r).next + 1
            },
    {
        let ghost cs = self@.connections;
        let n = self.connections.len();
        let mut i: usize = 0;
        let mut found: usize = n;
        #[verifier::loop_isolation(false)]
        while i < n
            invariant
                i <= n,
                found <= n,
                found == n ==> forall|j: int|
                    0 <= j < i ==> (#[trigger] cs[j]).connection_id != connection_id@,
                found < n ==> cs[found as int].connection_id == connection_id@,
            decreases n - i,
        {
            if found == n && self.connections[i].connection_id == *connection_id {
                found = i;
            }
            i = i + 1;
        }
        if found < n {
            proof {
                let k = id_index(cs, connection_id@);
                assert(contains_id(cs, connection_id@));
                assert(0 <= k < cs.len() && cs[k].connection_id == connection_id@);
                if k != found as int {
                    assert(false);
                }
                assert(self.connections@[found as int].sender.wf());
            }
            self.connections[found].sender.try_recv(r)
        } else {
            proof {
                assert(!contains_id(cs, connection_id@));
            }
            RecvOutcome::Closed
        }
    }

    /// One non-blocking receive attempt on the global broadcast channel.
    pub fn poll_global(&self, r: &mut Receiver) -> (out: RecvOutcome)
        requires
            self.wf(),
        ensures
            self@.global.published() <= old(r).next as int ==> out == RecvOutcome::Empty
                && final(r).next == old(r).next,
            (old(r).next as int) < self@.global.first_retained() ==> out == RecvOutcome::Lagged(
                (self@.global.first_retained() - old(r).next) as usize,
            ) && final(r).next as int == self@.global.first_retained(),
            (self@.global.first_retained() <= old(r).next as int && (old(r).next as int)
                < self@.global.published()) ==> out == RecvOutcome::Message(
                self@.global.history[old(r).next as int],
            ) && final(r).next == old(r).next + 1,
    {
        self.global_sender.try_recv(r)
    }

    /// Deliver a trade update to one user: a message tagged `trade_update`
    /// carrying the given payload and the current time is enqueued on each
    /// of the user's connections.
    pub fn broadcast_trade_update(&mut self, user_id: u128, trade_data: serde_json::Value) -> (r:
        Result<(), AppError>)
        requires
            old(self).wf(),
            can_deliver_to_user(old(self)@.connections, user_id),
        ensures
            final(self).wf(),
            r == Result::<(), AppError>::Ok(()),
            final(self)@.global == old(self)@.global,
            exists|m: WebSocketMessage| {
                &&& m.message_type@ == "trade_update"@
                &&& m.data == trade_data
                &&& final(self)@.connections == #[trigger] spec_send_to_user(
                    old(self)@.connections,
                    user_id,
                    m,
                )
            },
    {
        let message = WebSocketMessage {
            message_type: String::from_str("trade_update"),
            data: trade_data,
            timestamp_millis: now_millis(),
        };
        self.send_to_user(user_id, message)
    }

    /// Deliver a robot status change to one user: a message tagged
    /// `robot_status` carrying the given payload and the current time is
    /// enqueued on each of the user's connections.
    pub fn broadcast_robot_status(&mut self, user_id: u128, robot_data: serde_json::Value) -> (r:
        Result<(), AppError>)
        requires
            old(self).wf(),
            can_deliver_to_user(old(self)@.connections, user_id),
        ensures
            final(self).wf(),
            r == Result::<(), AppError>::Ok(()),
            final(self)@.global == old(self)@.global,
            exists|m: WebSocketMessage| {
                &&& m.message_type@ == "robot_status"@
                &&& m.data == robot_data
                &&& final(self)@.connections == #[trigger] spec_send_to_user(
                    old(self)@.connections,
                    user_id,
                    m,
                )
            },
    {
        let message = WebSocketMessage {
            message_type: String::from_str("robot_status"),
            data: robot_data,
            timestamp_millis: now_millis(),
        };
        self.send_to_user(user_id, message)
    }

    /// Broadcast a market tick to every connection: a message tagged
    /// `market_data` carrying the given payload and the current time is
    /// published once on the global channel.
    pub fn broadcast_market_data(&mut self, market_data: serde_json::Value) -> (r: Result<
        (),
        AppError,
    >)
        requires
            old(self).wf(),
            old(self)@.global.history.len() < usize::MAX as int,
        ensures
            final(self).wf(),
            r == Result::<(), AppError>::Ok(()),
            final(self)@.connections == old(self)@.connections,
            exists|m: WebSocketMessage| {
                &&& m.message_type@ == "market_data"@
                &&& m.data == market_data
                &&& final(self)@.global == #[trigger] spec_publish(old(self)@.global, m)
            },
    {
        let message = WebSocketMessage {
            message_type: String::from_str("market_data"),
            data: market_data,
            timestamp_millis: now_millis(),
        };
        self.send_to_all(message)
    }

    /// Broadcast a system notification to every connection: a message tagged
    /// `system_notification` carrying the given payload and the current time
    /// is published once on the global channel.
    pub fn broadcast_system_notification(&mut self, notification: serde_json::Value) -> (r: Result<
        (),
        AppError,
    >)
        requires
            old(self).wf(),
            old(self)@.global.history.len() < usize::MAX as int,
        ensures
            final(self).wf(),
            r == Result::<(), AppError>::Ok(()),
            final(self)@.connections == old(self)@.connections,
            exists|m: WebSocketMessage| {
                &&& m.message_type@ == "system_notification"@
                &&& m.data == notification
                &&& final(self)@.global == #[trigger] spec_publish(old(self)@.global, m)
            },
    {
        let message = WebSocketMessage {
            message_type: String::from_str("system_notification"),
            data: notification,
            timestamp_millis: now_millis(),
        };
        self.send_to_all(message)
    }
}

impl Default for WebSocketManager {
    /// Same as [`WebSocketManager::new`].
    fn default() -> (m: Self)
        ensures
            m.wf(),
            m@.connections == Seq::<ConnectionModel>::empty(),
            m@.global.history == Seq::<WebSocketMessage>::empty(),
            m@.global.capacity == GLOBAL_CHANNEL_CAPACITY as nat,
    {
        WebSocketManager::new()
    }
}


} // verus!
