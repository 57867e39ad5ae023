//! What holds of every room and of every registry, proved over the model.

use vstd::prelude::*;
use crate::addressee::AddresseeView;
use crate::model::{
    registry_step, rename_text, ConnectionEventView, ConnectionStateView, DeliveryView, RoomView,
};

verus! {

/// A join or a departure.
pub enum RoomOp {
    Join(AddresseeView),
    Leave(usize),
}

/// The room after one operation.
pub open spec fn apply(room: RoomView, op: RoomOp) -> RoomView {
    match op {
        RoomOp::Join(who) => room.join(who),
        RoomOp::Leave(id) => room.leave(id),
    }
}

/// The room after a sequence of operations, first to last.
pub open spec fn run(room: RoomView, ops: Seq<RoomOp>) -> RoomView
    decreases ops.len(),
{
    if ops.len() == 0 {
        room
    } else {
        apply(run(room, ops.drop_last()), ops.last())
    }
}

/// Number of joins in a sequence of operations.
pub open spec fn joins(ops: Seq<RoomOp>) -> nat
    decreases ops.len(),
{
    if ops.len() == 0 {
        0
    } else {
        joins(ops.drop_last()) + if ops.last() is Join { 1nat } else { 0nat }
    }
}

/// Number of departures in a sequence of operations run on `room`: the
/// leaves that found their connection in the room.
pub open spec fn departures(room: RoomView, ops: Seq<RoomOp>) -> nat
    decreases ops.len(),
{
    if ops.len() == 0 {
        0
    } else {
        departures(room, ops.drop_last()) + match ops.last() {
            RoomOp::Leave(id) if run(room, ops.drop_last()).members.contains_key(id) => 1nat,
            _ => 0nat,
        }
    }
}

/// A join into a well-formed room with an id to spare adds one participant
/// and leaves the room well formed.
pub proof fn lemma_join(room: RoomView, who: AddresseeView)
    requires
        room.wf(),
        room.has_room(),
    ensures
        room.join(who).wf(),
        room.join(who).count() == room.count() + 1,
        !room.members.contains_key(room.next_id),
        room.join(who).members[room.next_id] == who,
        forall|id: usize|
            room.members.contains_key(id) ==> room.join(who).members.contains_key(id)
                && room.join(who).members[id] == room.members[id],
{
}

/// A departure takes one participant away if the connection is in the room
/// and none if it is not, touches nobody else, and leaves the room well
/// formed.
pub proof fn lemma_leave(room: RoomView, id: usize)
    requires
        room.wf(),
    ensures
        room.leave(id).wf(),
        room.members.contains_key(id) ==> room.leave(id).count() + 1 == room.count(),
        !room.members.contains_key(id) ==> room.leave(id) == room,
        forall|other: usize|
            other != id && room.members.contains_key(other) ==> room.leave(id).members.contains_key(
                other,
            ) && room.leave(id).members[other] == room.members[other],
{
    if !room.members.contains_key(id) {
        assert(room.members.remove(id) =~= room.members);
    }
}

/// A rename changes one display name and nothing else: the same
/// connections are in the room, the renamed one bears the new name and is
/// otherwise as it was, and everybody else is as before.
pub proof fn lemma_rename(room: RoomView, id: usize, new_name: Seq<char>)
    requires
        room.wf(),
    ensures
        room.rename(id, new_name).wf(),
        room.rename(id, new_name).members.dom() == room.members.dom(),
        room.rename(id, new_name).count() == room.count(),
        room.members.contains_key(id) ==> room.rename(id, new_name).members[id]
            == room.members[id].renamed(new_name),
        forall|other: usize|
            other != id && room.members.contains_key(other) ==> room.rename(
                id,
                new_name,
            ).members[other] == room.members[other],
{
    assert(room.rename(id, new_name).members.dom() =~= room.members.dom());
}

/// After any sequence of joins and leaves, the number of participants is
/// what it was, plus the joins, minus the departures. In a room that began
/// empty it is the joins minus the departures, and never below zero.
pub proof fn lemma_head_count(room: RoomView, ops: Seq<RoomOp>)
    requires
        room.wf(),
        room.next_id + joins(ops) <= usize::MAX,
    ensures
        run(room, ops).wf(),
        run(room, ops).next_id == room.next_id + joins(ops),
        run(room, ops).count() + departures(room, ops) == room.count() + joins(ops),
        departures(room, ops) <= room.count() + joins(ops),
    decreases ops.len(),
{
    if ops.len() > 0 {
        let before = run(room, ops.drop_last());
        lemma_head_count(room, ops.drop_last());
        match ops.last() {
            RoomOp::Join(who) => {
                lemma_join(before, who);
            },
            RoomOp::Leave(id) => {
                lemma_leave(before, id);
            },
        }
    }
}

/// The notice of a rename begins with `User `, then names the old name,
/// and ends with the new one.
pub proof fn lemma_rename_text(old_name: Seq<char>, new_name: Seq<char>)
    ensures
        rename_text(old_name, new_name).subrange(5, 5 + old_name.len() as int) == old_name,
        rename_text(old_name, new_name).subrange(
            rename_text(old_name, new_name).len() - new_name.len(),
            rename_text(old_name, new_name).len() as int,
        ) == new_name,
        rename_text(old_name, new_name).len() == 27 + old_name.len() + new_name.len(),
{
    reveal_strlit("User ");
    reveal_strlit(" changed user name to ");
    let text = rename_text(old_name, new_name);
    assert(text.subrange(5, 5 + old_name.len() as int) =~= old_name);
    assert(text.subrange(text.len() - new_name.len(), text.len() as int) =~= new_name);
}

/// Whoever a delivery of a step goes to is in the room after the step.
pub open spec fn reaches_participants_only(room: RoomView, sent: Seq<DeliveryView>) -> bool {
    forall|at: int, to: int|
        0 <= at < sent.len() && 0 <= to < sent[at].recipients.len() ==> room.members.contains_key(
            #[trigger] sent[at].recipients[to],
        )
}

/// A step of a connection leaves a well-formed room well formed, and sends
/// to nobody but the participants of that room.
pub proof fn lemma_step(
    room: RoomView,
    state: ConnectionStateView,
    event: ConnectionEventView,
    after: RoomView,
    next: ConnectionStateView,
    sent: Seq<DeliveryView>,
)
    requires
        room.wf(),
        room.step(state, event, after, next, sent),
    ensures
        after.wf(),
        reaches_participants_only(after, sent),
{
    match (state, event) {
        (ConnectionStateView::Joined { addressee }, ConnectionEventView::Opened) => {
            if room.has_room() {
                lemma_join(room, addressee);
            }
        },
        (ConnectionStateView::Active { connection_id }, ConnectionEventView::Frame(frame)) => {
            if let crate::model::Request::Rename(new_name) = crate::model::request(frame) {
                lemma_rename(room, connection_id, new_name);
            }
        },
        (ConnectionStateView::Active { connection_id }, ConnectionEventView::Closed) => {
            lemma_leave(room, connection_id);
        },
        _ => {},
    }
    assert forall|at: int, to: int|
        0 <= at < sent.len() && 0 <= to < sent[at].recipients.len() implies after.members.contains_key(
        #[trigger] sent[at].recipients[to],
    ) by {
        let order = sent[at].recipients;
        if order.to_set() == after.members.dom() {
            assert(order.to_set().contains(order[to]));
        }
    }
}

/// A step in one room is nothing to any other room: the other room is as it
/// was, and whatever the step sends goes to participants of the room it
/// happened in.
pub proof fn lemma_rooms_apart(
    before: Map<u128, RoomView>,
    here: u128,
    state: ConnectionStateView,
    event: ConnectionEventView,
    after: Map<u128, RoomView>,
    next: ConnectionStateView,
    sent: Seq<DeliveryView>,
    elsewhere: u128,
)
    requires
        registry_step(before, here, state, event, after, next, sent),
        before.contains_key(here) ==> before[here].wf(),
        elsewhere != here,
    ensures
        after.dom() == before.dom(),
        before.contains_key(elsewhere) ==> after[elsewhere] == before[elsewhere],
        before.contains_key(here) ==> reaches_participants_only(after[here], sent),
        !before.contains_key(here) ==> sent.len() == 0,
{
    if before.contains_key(here) {
        lemma_step(before[here], state, event, after[here], next, sent);
        assert(after.dom() =~= before.dom());
    }
}

/// Steps in two different rooms can be taken in either order: the registry
/// ends up the same, each connection ends up in the same state, and each
/// step sends the same.
pub proof fn lemma_rooms_commute(
    start: Map<u128, RoomView>,
    first: u128,
    first_state: ConnectionStateView,
    first_event: ConnectionEventView,
    first_next: ConnectionStateView,
    first_sent: Seq<DeliveryView>,
    between: Map<u128, RoomView>,
    second: u128,
    second_state: ConnectionStateView,
    second_event: ConnectionEventView,
    second_next: ConnectionStateView,
    second_sent: Seq<DeliveryView>,
    end: Map<u128, RoomView>,
) -> (other_way: Map<u128, RoomView>)
    requires
        first != second,
        registry_step(start, first, first_state, first_event, between, first_next, first_sent),
        registry_step(between, second, second_state, second_event, end, second_next, second_sent),
    ensures
        registry_step(start, second, second_state, second_event, other_way, second_next, second_sent),
        registry_step(other_way, first, first_state, first_event, end, first_next, first_sent),
{
    let other_way = if start.contains_key(second) {
        start.insert(second, end[second])
    } else {
        start
    };
    assert(between.dom() =~= start.dom());
    if start.contains_key(second) {
        assert(other_way =~= start.insert(second, other_way[second]));
    }
    if start.contains_key(first) {
        assert(end =~= other_way.insert(first, end[first]));
    } else {
        assert(end =~= other_way);
    }
    other_way
}

} // verus!
