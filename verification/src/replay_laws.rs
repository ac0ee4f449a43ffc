//! Which records a sequence of commands leaves in the list, said without
//! running the commands one after another.

use vstd::prelude::*;
use crate::seq_facts::{
    filter_by_agreeing_tests, filter_keeps_all, filter_of_map, filter_of_push, filter_twice,
};
use crate::store::{apply, replay, CommandView};
use crate::store_laws::replay_then_one_more;
use crate::todo::TodoView;

verus! {

/// The record that a command puts at the end of the list, if it puts one.
pub open spec fn inserted(command: CommandView) -> Option<TodoView> {
    match command {
        CommandView::Add(todo) => Some(todo),
        CommandView::Replace(todo) => Some(todo),
        CommandView::Remove(_) => None,
    }
}

/// True when a command takes the records with the identifier `id` out of
/// the list.
pub open spec fn evicts(command: CommandView, id: Seq<char>) -> bool {
    match command {
        CommandView::Add(_) => false,
        CommandView::Replace(todo) => todo.id == id,
        CommandView::Remove(gone) => gone == id,
    }
}

/// True when no command at index `from` or later evicts `id`.
pub open spec fn untouched_from(commands: Seq<CommandView>, from: int, id: Seq<char>) -> bool {
    forall|j: int| from <= j < commands.len() ==> !evicts(#[trigger] commands[j], id)
}

/// True when the command at index `i` inserts a record that no later command
/// evicts.
pub open spec fn survives(commands: Seq<CommandView>, i: int) -> bool {
    match inserted(commands[i]) {
        Some(todo) => untouched_from(commands, i + 1, todo.id),
        None => false,
    }
}

/// The indices below `n`, in order.
pub open spec fn indices(n: nat) -> Seq<int> {
    Seq::new(n, |i: int| i)
}

/// The records that the commands insert and do not evict later, in the order
/// of the commands that insert them.
pub open spec fn survivors(commands: Seq<CommandView>) -> Seq<TodoView> {
    indices(commands.len()).filter(|i: int| survives(commands, i)).map_values(
        |i: int| inserted(commands[i]).unwrap(),
    )
}

/// The records of `items` whose identifier no command evicts, in their order.
pub open spec fn kept(items: Seq<TodoView>, commands: Seq<CommandView>) -> Seq<TodoView> {
    items.filter(|t: TodoView| untouched_from(commands, 0, t.id))
}

/// What a command puts at the end of the list, as a sequence of one record
/// or of none.
spec fn tail_of(command: CommandView) -> Seq<TodoView> {
    match inserted(command) {
        Some(todo) => seq![todo],
        None => Seq::empty(),
    }
}

/// One command takes out what it evicts and then puts in what it inserts.
proof fn lemma_apply_evicts_then_inserts(items: Seq<TodoView>, command: CommandView)
    ensures
        apply(items, command) == items.filter(|t: TodoView| !evicts(command, t.id)) + tail_of(
            command,
        ),
{
    let stays = |t: TodoView| !evicts(command, t.id);
    match command {
        CommandView::Add(todo) => {
            filter_keeps_all(items, stays);
        },
        CommandView::Replace(todo) => {
            filter_by_agreeing_tests(items, |t: TodoView| t.id != todo.id, stays);
        },
        CommandView::Remove(id) => {
            filter_by_agreeing_tests(items, |t: TodoView| t.id != id, stays);
        },
    }
}

/// The records kept from the start, after one more command.
proof fn lemma_kept_after_one_more(
    items: Seq<TodoView>,
    commands: Seq<CommandView>,
    command: CommandView,
)
    ensures
        kept(items, commands.push(command)) == kept(items, commands).filter(
            |t: TodoView| !evicts(command, t.id),
        ),
{
    let longer = commands.push(command);
    let before = |t: TodoView| untouched_from(commands, 0, t.id);
    let stays = |t: TodoView| !evicts(command, t.id);
    let after = |t: TodoView| untouched_from(longer, 0, t.id);
    filter_twice(items, before, stays);
    assert forall|i: int| 0 <= i < items.len() implies after(#[trigger] items[i]) == (before(
        items[i],
    ) && stays(items[i])) by {
        let id = items[i].id;
        if untouched_from(longer, 0, id) {
            assert(!evicts(longer[commands.len() as int], id));
            assert forall|j: int| 0 <= j < commands.len() implies !evicts(
                #[trigger] commands[j],
                id,
            ) by {
                assert(!evicts(longer[j], id));
            }
        }
    }
    filter_by_agreeing_tests(items, after, |t: TodoView| before(t) && stays(t));
}

/// The survivors after one more command.
proof fn lemma_survivors_after_one_more(commands: Seq<CommandView>, command: CommandView)
    ensures
        survivors(commands.push(command)) == survivors(commands).filter(
            |t: TodoView| !evicts(command, t.id),
        ) + tail_of(command),
{
    let n = commands.len();
    let longer = commands.push(command);
    let alive = |i: int| survives(commands, i);
    let alive_after = |i: int| survives(longer, i);
    let record = |i: int| inserted(commands[i]).unwrap();
    let record_after = |i: int| inserted(longer[i]).unwrap();
    let stays = |t: TodoView| !evicts(command, t.id);
    let stays_at = |i: int| stays(record(i));
    let below = indices(n);

    assert(indices(n + 1) == below.push(n as int));
    filter_of_push(below, n as int, alive_after);

    // Below the new command, to survive is to have survived and to stay.
    assert forall|i: int| 0 <= i < below.len() implies alive_after(#[trigger] below[i]) == (alive(
        below[i],
    ) && stays_at(below[i])) by {
        match inserted(commands[i]) {
            Some(todo) => {
                if untouched_from(longer, i + 1, todo.id) {
                    assert forall|j: int| i + 1 <= j < commands.len() implies !evicts(
                        #[trigger] commands[j],
                        todo.id,
                    ) by {
                        assert(!evicts(longer[j], todo.id));
                    }
                }
            },
            None => {},
        }
    }
    filter_by_agreeing_tests(below, alive_after, |i: int| alive(i) && stays_at(i));
    filter_twice(below, alive, stays_at);
    let old_alive = below.filter(alive);
    let still_alive = old_alive.filter(stays_at);

    // The records of those that are still alive.
    filter_of_map(old_alive, record, stays);
    assert(still_alive.map_values(record_after) == still_alive.map_values(record)) by {
        assert forall|k: int| 0 <= k < still_alive.len() implies record_after(
            #[trigger] still_alive[k],
        ) == record(still_alive[k]) by {
            // What is still alive stands below the new command.
            old_alive.lemma_filter_contains_rev(stays_at, still_alive[k]);
            below.lemma_filter_contains_rev(alive, still_alive[k]);
        }
    }
}

/// After a sequence of commands the list holds, first, the records it held
/// before whose identifier no command evicts, and then the records that the
/// commands insert and do not evict later: each in the order in which it
/// came.
pub proof fn replay_leaves_kept_then_survivors(items: Seq<TodoView>, commands: Seq<CommandView>)
    ensures
        replay(items, commands) == kept(items, commands) + survivors(commands),
    decreases commands.len(),
{
    if commands.len() == 0 {
        filter_keeps_all(items, |t: TodoView| untouched_from(commands, 0, t.id));
    } else {
        let front = commands.drop_last();
        let last = commands.last();
        assert(front.push(last) == commands);
        replay_leaves_kept_then_survivors(items, front);
        replay_then_one_more(items, front, last);
        lemma_apply_evicts_then_inserts(replay(items, front), last);
        lemma_kept_after_one_more(items, front, last);
        lemma_survivors_after_one_more(front, last);
    }
}

/// Replayed on an empty list, a sequence of commands leaves exactly the
/// records that it inserts and does not evict later.
pub proof fn replay_from_empty_leaves_survivors(commands: Seq<CommandView>)
    ensures
        replay(Seq::<TodoView>::empty(), commands) == survivors(commands),
{
    replay_leaves_kept_then_survivors(Seq::<TodoView>::empty(), commands);
}

} // verus!
