//! The delivery guarantees of the registry and its channels, stated and
//! proved once over the mathematical models that the executable contracts
//! speak of.

use vstd::prelude::*;

use crate::channel::{spec_publish, ChannelModel};
use crate::message::WebSocketMessage;
use crate::websocket_manager::{
    contains_id, distinct_ids, id_index, spec_remove, spec_send_to_user, ConnectionModel,
};

verus! {

/// Registration: inserting a record under a connection id that is not yet
/// present grows the registry by exactly one record, and that record is the
/// inserted one.
pub proof fn lemma_register_increments_count(cs: Seq<ConnectionModel>, c: ConnectionModel)
    requires
        !contains_id(cs, c.connection_id),
    ensures
        spec_remove(cs, c.connection_id).push(c).len() == cs.len() + 1,
        spec_remove(cs, c.connection_id).push(c).last() == c,
{
}

/// Registration, second half: removing a connection id that is present
/// shrinks the registry by exactly one record.
pub proof fn lemma_remove_decrements_count(cs: Seq<ConnectionModel>, id: Seq<char>)
    requires
        contains_id(cs, id),
    ensures
        spec_remove(cs, id).len() == cs.len() - 1,
{
}

/// After removal under unique ids, the removed id is gone.
pub proof fn lemma_remove_removes(cs: Seq<ConnectionModel>, id: Seq<char>)
    requires
        distinct_ids(cs),
    ensures
        !contains_id(spec_remove(cs, id), id),
{
    if contains_id(cs, id) {
        let k = id_index(cs, id);
        let cs1 = cs.remove(k);
        assert forall|j: int| 0 <= j < cs1.len() implies (#[trigger] cs1[j]).connection_id != id by {
            let j0 = if j < k {
                j
            } else {
                j + 1
            };
            assert(cs1[j] == cs[j0]);
        }
    }
}

/// Idempotent removal: removing the same connection id twice leaves the
/// registry exactly as removing it once does, so the second of two racing
/// cleanups is a no-op.
pub proof fn lemma_remove_idempotent(cs: Seq<ConnectionModel>, id: Seq<char>)
    requires
        distinct_ids(cs),
    ensures
        spec_remove(spec_remove(cs, id), id) == spec_remove(cs, id),
{
    lemma_remove_removes(cs, id);
}

/// Targeted delivery: a send to user `a` appends the message to the private
/// queue of every connection owned by `a`, and leaves every connection of
/// any other user `b` — its queue included — completely untouched.
pub proof fn lemma_targeted_delivery(
    cs: Seq<ConnectionModel>,
    a: u128,
    b: u128,
    m: WebSocketMessage,
)
    requires
        a != b,
    ensures
        spec_send_to_user(cs, a, m).len() == cs.len(),
        forall|i: int|
            0 <= i < cs.len() && (#[trigger] cs[i]).user_id == a ==> spec_send_to_user(
                cs,
                a,
                m,
            )[i].sender.history == cs[i].sender.history.push(m),
        forall|i: int|
            0 <= i < cs.len() && (#[trigger] cs[i]).user_id == b ==> spec_send_to_user(cs, a, m)[i]
                == cs[i],
{
}

/// Offline no-op: a send to a user with no registered connections changes
/// nothing at all.
pub proof fn lemma_send_to_offline_user(cs: Seq<ConnectionModel>, user_id: u128, m: WebSocketMessage)
    requires
        forall|i: int| 0 <= i < cs.len() ==> (#[trigger] cs[i]).user_id != user_id,
    ensures
        spec_send_to_user(cs, user_id, m) == cs,
{
    assert(spec_send_to_user(cs, user_id, m) =~= cs);
}

/// Broadcast fan-out: after a publish, every subscriber that was caught up —
/// its cursor stood at the end of the history — finds the published message
/// retained at exactly its cursor position, so its next receive observes
/// exactly that message.
pub proof fn lemma_broadcast_fanout(c: ChannelModel, m: WebSocketMessage, cursor: int)
    requires
        c.capacity >= 1,
        cursor == c.history.len(),
    ensures
        spec_publish(c, m).first_retained() <= cursor < spec_publish(c, m).published(),
        spec_publish(c, m).history[cursor] == m,
{
}

/// Lag drop under load: once more messages have been published than the
/// channel's capacity, a subscriber still positioned at the start has lost
/// the oldest messages for good — only the last `capacity` of them remain
/// observable, strictly fewer than were published. A subscriber that kept
/// its cursor at the end throughout (see [`lemma_broadcast_fanout`])
/// observed every one of them.
pub proof fn lemma_lag_drop(c: ChannelModel)
    requires
        c.history.len() > c.capacity,
    ensures
        c.first_retained() > 0,
        c.published() - c.first_retained() == c.capacity,
        c.capacity < c.published(),
{
}

/// One step of a batch registration: remove any record under the new id,
/// then append the new record.
pub open spec fn spec_register_all(
    cs: Seq<ConnectionModel>,
    batch: Seq<ConnectionModel>,
) -> Seq<ConnectionModel>
    decreases batch.len(),
{
    if batch.len() == 0 {
        cs
    } else {
        spec_register_all(
            spec_remove(cs, batch.first().connection_id).push(batch.first()),
            batch.drop_first(),
        )
    }
}

/// A record already present survives a batch registration whose ids all
/// differ from its own.
proof fn lemma_register_all_preserves(
    cs: Seq<ConnectionModel>,
    batch: Seq<ConnectionModel>,
    id: Seq<char>,
)
    requires
        contains_id(cs, id),
        forall|i: int| 0 <= i < batch.len() ==> (#[trigger] batch[i]).connection_id != id,
    ensures
        contains_id(spec_register_all(cs, batch), id),
    decreases batch.len(),
{
    if batch.len() > 0 {
        let c0 = batch.first();
        let cs1 = spec_remove(cs, c0.connection_id);
        let w = choose|i: int| 0 <= i < cs.len() && (#[trigger] cs[i]).connection_id == id;
        if contains_id(cs, c0.connection_id) {
            let k = id_index(cs, c0.connection_id);
            let w1 = if w < k {
                w
            } else {
                w - 1
            };
            assert(cs[k].connection_id == c0.connection_id);
            assert(w != k);
            assert(cs1[w1] == cs[w]);
            assert(contains_id(cs1, id));
        }
        assert(contains_id(cs1.push(c0), id)) by {
            let w2 = choose|i: int| 0 <= i < cs1.len() && (#[trigger] cs1[i]).connection_id == id;
            assert(cs1.push(c0)[w2] == cs1[w2]);
        }
        lemma_register_all_preserves(cs1.push(c0), batch.drop_first(), id);
    }
}

/// Concurrent registration, sequentialized: registering a batch of
/// connections whose ids are pairwise distinct and all new to the registry
/// grows the registry by exactly the size of the batch, keeps all ids
/// unique, and ends with every id of the batch present — no registration is
/// lost and none is duplicated.
pub proof fn lemma_batch_registration(cs: Seq<ConnectionModel>, batch: Seq<ConnectionModel>)
    requires
        distinct_ids(cs),
        distinct_ids(batch),
        forall|i: int| 0 <= i < batch.len() ==> !contains_id(cs, (#[trigger] batch[i]).connection_id),
    ensures
        spec_register_all(cs, batch).len() == cs.len() + batch.len(),
        distinct_ids(spec_register_all(cs, batch)),
        forall|i: int|
            0 <= i < batch.len() ==> contains_id(
                spec_register_all(cs, batch),
                (#[trigger] batch[i]).connection_id,
            ),
    decreases batch.len(),
{
    if batch.len() > 0 {
        let c0 = batch.first();
        assert(!contains_id(cs, c0.connection_id));
        assert(spec_remove(cs, c0.connection_id) == cs);
        let cs2 = cs.push(c0);
        assert forall|a: int, b: int| 0 <= a < b < cs2.len() implies (
        #[trigger] cs2[a]).connection_id != (#[trigger] cs2[b]).connection_id by {
            if b < cs.len() {
                assert(cs2[a] == cs[a] && cs2[b] == cs[b]);
            } else {
                assert(cs2[a] == cs[a] && cs2[b] == c0);
                assert(!contains_id(cs, c0.connection_id));
            }
        }
        let rest = batch.drop_first();
        assert forall|i: int| 0 <= i < rest.len() implies !contains_id(
            cs2,
            (#[trigger] rest[i]).connection_id,
        ) by {
            assert(rest[i] == batch[i + 1]);
            assert(batch[0].connection_id != batch[i + 1].connection_id);
            if contains_id(cs2, rest[i].connection_id) {
                let w = choose|k: int|
                    0 <= k < cs2.len() && (#[trigger] cs2[k]).connection_id
                        == rest[i].connection_id;
                if w < cs.len() {
                    assert(cs[w].connection_id == rest[i].connection_id);
                    assert(contains_id(cs, batch[i + 1].connection_id));
                } else {
                    assert(cs2[w] == c0);
                }
                assert(false);
            }
        }
        lemma_batch_registration(cs2, rest);
        assert forall|i: int| 0 <= i < batch.len() implies contains_id(
            spec_register_all(cs, batch),
            (#[trigger] batch[i]).connection_id,
        ) by {
            assert(spec_register_all(cs, batch) == spec_register_all(cs2, rest));
            if i == 0 {
                assert(cs2[cs.len() as int] == c0);
                assert(contains_id(cs2, c0.connection_id));
                assert forall|k: int| 0 <= k < rest.len() implies (
                #[trigger] rest[k]).connection_id != c0.connection_id by {
                    assert(rest[k] == batch[k + 1]);
                }
                lemma_register_all_preserves(cs2, rest, c0.connection_id);
            } else {
                assert(rest[i - 1] == batch[i]);
            }
        }
    }
}

} // verus!
