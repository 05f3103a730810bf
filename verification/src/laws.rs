//! Properties of the emitter that hold across its operations.

use vstd::prelude::*;
use crate::emitter::{cleared, fresh, with_channel, with_flag, with_room, EmitterView};
use crate::javascript::{event_channel, namespace_channel};
use crate::python::targets;

verus! {

/// An operation on an emitter, as the emitter's methods perform them on its view.
pub enum Operation {
    /// `to(room)`
    To(Seq<char>),
    /// `of(nsp)`
    Of(Seq<char>),
    /// `json()`, `volatile()` or `broadcast()`, by the flag's name
    Flag(Seq<char>),
    /// `channel(name)`
    Channel(Seq<char>),
    /// `emit(..)`
    Emit,
}

/// What an operation makes of the view `v` (the `ensures` of each method).
pub open spec fn step(v: EmitterView, op: Operation) -> EmitterView {
    match op {
        Operation::To(room) => with_room(v, room),
        Operation::Of(nsp) => fresh(v.prefix, nsp),
        Operation::Flag(name) => with_flag(v, name),
        Operation::Channel(name) => with_channel(v, name),
        Operation::Emit => cleared(v),
    }
}

/// The view after the operations `ops`, in order.
pub open spec fn run(v: EmitterView, ops: Seq<Operation>) -> EmitterView
    decreases ops.len(),
{
    if ops.len() == 0 {
        v
    } else {
        run(step(v, ops[0]), ops.drop_first())
    }
}

/// The emitter still has the key prefix `prefix`, signs its packets as
/// `emitter`, and carries at most one flag.
pub open spec fn keeps_identity(v: EmitterView, prefix: Seq<char>) -> bool {
    &&& v.prefix == prefix
    &&& v.uid == "emitter"@
    &&& v.flags.len() <= 1
}

/// No flag name occurs twice among `flags`, as in a map from names to values.
pub open spec fn distinct_flag_names(flags: Seq<(Seq<char>, bool)>) -> bool {
    forall|i: int, j: int| 0 <= i < flags.len() && 0 <= j < flags.len() && i != j ==> flags[i].0 != flags[j].0
}

/// Whatever operations follow `create_emitter(redis, prefix, nsp)`, the
/// emitter keeps its key prefix and uid, so every event it emits goes on a
/// channel that begins with `prefix#nsp#` for its namespace at the time; and
/// it never carries a flag name twice (at most one flag at all).
pub proof fn law_operations_keep_identity(prefix: Seq<char>, nsp: Seq<char>, ops: Seq<Operation>)
    ensures
        keeps_identity(run(fresh(prefix, nsp), ops), prefix),
        distinct_flag_names(run(fresh(prefix, nsp), ops).flags),
        namespace_channel(prefix, run(fresh(prefix, nsp), ops).nsp).is_prefix_of(
            event_channel(
                run(fresh(prefix, nsp), ops).prefix,
                run(fresh(prefix, nsp), ops).nsp,
                run(fresh(prefix, nsp), ops).rooms,
            ),
        ),
{
    lemma_run_keeps_identity(fresh(prefix, nsp), prefix, ops);
    let v = run(fresh(prefix, nsp), ops);
    law_event_channel_within_namespace(v.prefix, v.nsp, v.rooms);
}

proof fn lemma_run_keeps_identity(v: EmitterView, prefix: Seq<char>, ops: Seq<Operation>)
    requires
        keeps_identity(v, prefix),
    ensures
        keeps_identity(run(v, ops), prefix),
    decreases ops.len(),
{
    if ops.len() > 0 {
        lemma_run_keeps_identity(step(v, ops[0]), prefix, ops.drop_first());
    }
}

/// Adding a room changes only the rooms, which grow by that room at the end:
/// the flags, namespace, prefix, manager channel and uid stay as they were.
pub proof fn law_room_changes_only_rooms(v: EmitterView, room: Seq<char>)
    ensures
        with_room(v, room).rooms == v.rooms.push(room),
        with_room(v, room).flags == v.flags,
        with_room(v, room).prefix == v.prefix,
        with_room(v, room).nsp == v.nsp,
        with_room(v, room).channel == v.channel,
        with_room(v, room).uid == v.uid,
{
}

/// Setting a flag changes only the flags, to that single flag: the rooms,
/// namespace, prefix, manager channel and uid stay as they were.
pub proof fn law_flag_changes_only_flags(v: EmitterView, name: Seq<char>)
    ensures
        with_flag(v, name).flags == seq![(name, true)],
        with_flag(v, name).rooms == v.rooms,
        with_flag(v, name).prefix == v.prefix,
        with_flag(v, name).nsp == v.nsp,
        with_flag(v, name).channel == v.channel,
        with_flag(v, name).uid == v.uid,
{
}

/// Setting the manager channel changes only the channel: the rooms, flags,
/// namespace, prefix and uid stay as they were.
pub proof fn law_channel_changes_only_channel(v: EmitterView, name: Seq<char>)
    ensures
        with_channel(v, name).channel == name,
        with_channel(v, name).rooms == v.rooms,
        with_channel(v, name).flags == v.flags,
        with_channel(v, name).prefix == v.prefix,
        with_channel(v, name).nsp == v.nsp,
        with_channel(v, name).uid == v.uid,
{
}

/// Rooms, flags and the manager channel are set independently: adding a
/// room and setting a flag or a channel give the same emitter in either order.
pub proof fn law_settings_commute(v: EmitterView, room: Seq<char>, flag: Seq<char>, channel: Seq<char>)
    ensures
        with_flag(with_room(v, room), flag) == with_room(with_flag(v, flag), room),
        with_channel(with_room(v, room), channel) == with_room(with_channel(v, channel), room),
        with_channel(with_flag(v, flag), channel) == with_flag(with_channel(v, channel), flag),
{
    assert(with_flag(with_room(v, room), flag) =~= with_room(with_flag(v, flag), room));
    assert(with_channel(with_room(v, room), channel) =~= with_room(with_channel(v, channel), room));
    assert(with_channel(with_flag(v, flag), channel) =~= with_flag(with_channel(v, channel), flag));
}

/// Setting a flag replaces the flag set before it: only the last one counts.
pub proof fn law_last_flag_wins(v: EmitterView, first: Seq<char>, second: Seq<char>)
    ensures
        with_flag(with_flag(v, first), second) == with_flag(v, second),
{
    assert(with_flag(with_flag(v, first), second) =~= with_flag(v, second));
}

/// Switching namespace forgets the rooms, flags and manager channel that
/// were set: the result depends on the key prefix alone.
pub proof fn law_namespace_switch_forgets_targeting(v: EmitterView, room: Seq<char>, flag: Seq<char>, channel: Seq<char>, nsp: Seq<char>)
    ensures
        fresh(with_room(v, room).prefix, nsp) == fresh(v.prefix, nsp),
        fresh(with_flag(v, flag).prefix, nsp) == fresh(v.prefix, nsp),
        fresh(with_channel(v, channel).prefix, nsp) == fresh(v.prefix, nsp),
{
}

/// After an event goes out, the rooms and flags it was sent with are gone,
/// whatever they were; clearing twice is clearing once.
pub proof fn law_emission_clears_targeting(v: EmitterView, room: Seq<char>, flag: Seq<char>)
    ensures
        cleared(with_room(v, room)) == cleared(v),
        cleared(with_flag(v, flag)) == cleared(v),
        cleared(cleared(v)) == cleared(v),
        cleared(v).prefix == v.prefix,
        cleared(v).nsp == v.nsp,
        cleared(v).channel == v.channel,
        cleared(v).uid == v.uid,
{
    assert(cleared(with_room(v, room)) =~= cleared(v));
    assert(cleared(with_flag(v, flag)) =~= cleared(v));
    assert(cleared(cleared(v)) =~= cleared(v));
}

/// The event after an emission goes to the whole namespace's channel.
pub proof fn law_next_event_goes_to_namespace(v: EmitterView)
    ensures
        event_channel(cleared(v).prefix, cleared(v).nsp, cleared(v).rooms) == namespace_channel(v.prefix, v.nsp),
{
}

/// Every event of a namespace is published on a channel that begins with
/// the namespace's channel `prefix#nsp#`.
pub proof fn law_event_channel_within_namespace(prefix: Seq<char>, nsp: Seq<char>, rooms: Seq<Seq<char>>)
    ensures
        namespace_channel(prefix, nsp).is_prefix_of(event_channel(prefix, nsp, rooms)),
{
    let ns = namespace_channel(prefix, nsp);
    assert(event_channel(prefix, nsp, rooms).subrange(0, ns.len() as int) =~= ns);
}

/// An event addressed to exactly one room is published on that room's
/// channel; one addressed to no room, or to several, on the namespace's.
pub proof fn law_room_channel(prefix: Seq<char>, nsp: Seq<char>, rooms: Seq<Seq<char>>)
    ensures
        rooms.len() == 1 ==> event_channel(prefix, nsp, rooms) == prefix + seq!['#'] + nsp + seq!['#'] + rooms[0] + seq!['#'],
        rooms.len() != 1 ==> event_channel(prefix, nsp, rooms) == prefix + seq!['#'] + nsp + seq!['#'],
{
}

/// The JavaScript channel is made of the prefix and namespace only: the
/// manager channel of the Python protocol does not change it.
pub proof fn law_manager_channel_independent(v: EmitterView, channel: Seq<char>)
    ensures
        event_channel(with_channel(v, channel).prefix, with_channel(v, channel).nsp, with_channel(v, channel).rooms)
            == event_channel(v.prefix, v.nsp, v.rooms),
{
}

/// The Python manager receives one message per room addressed, in the order
/// the rooms were added, and a single one for the whole namespace when no
/// room is addressed.
pub proof fn law_one_message_per_room(rooms: Seq<Seq<char>>)
    ensures
        rooms.len() == 0 ==> targets(rooms) == seq![None::<Seq<char>>],
        rooms.len() > 0 ==> targets(rooms).len() == rooms.len(),
        forall|i: int| 0 <= i < rooms.len() ==> #[trigger] targets(rooms)[i] == Some(rooms[i]),
{
}

/// Rooms accumulate in the order they are added.
pub proof fn law_rooms_accumulate(v: EmitterView, first: Seq<char>, second: Seq<char>)
    ensures
        with_room(with_room(v, first), second).rooms == v.rooms.push(first).push(second),
        with_room(with_room(v, first), second).rooms.len() == v.rooms.len() + 2,
{
}

} // verus!
