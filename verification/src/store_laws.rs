//! What holds of the store's operations, whatever the list and the records.

use vstd::prelude::*;
use crate::store::{
    apply, has_id, ids_unique, only_one_with_id_at, replay, without_id, without_id_of_push,
    CommandView,
};
use crate::todo::TodoView;

verus! {

/// A record is in the list after a removal exactly when it was in the list
/// before and has another identifier.
pub proof fn remove_keeps_exactly_the_others(items: Seq<TodoView>, id: Seq<char>, todo: TodoView)
    ensures
        without_id(items, id).contains(todo) <==> items.contains(todo) && todo.id != id,
{
    if without_id(items, id).contains(todo) {
        items.lemma_filter_contains_rev(|t: TodoView| t.id != id, todo);
    }
}

/// After a removal no record has the identifier that was removed.
pub proof fn remove_leaves_no_such_id(items: Seq<TodoView>, id: Seq<char>)
    ensures
        !has_id(without_id(items, id), id),
{
}

/// Removing an identifier that no record has leaves the list as it is.
pub proof fn remove_absent_changes_nothing(items: Seq<TodoView>, id: Seq<char>)
    requires
        !has_id(items, id),
    ensures
        without_id(items, id) == items,
    decreases items.len(),
{
    if items.len() > 0 {
        let front = items.drop_last();
        assert(front.push(items.last()) == items);
        without_id_of_push(front, items.last(), id);
        remove_absent_changes_nothing(front, id);
    }
}

/// Where the record at index `i` is the only one with its identifier,
/// removing that identifier takes out that record and no other.
pub proof fn remove_takes_out_one(items: Seq<TodoView>, i: int)
    requires
        only_one_with_id_at(items, i),
    ensures
        without_id(items, items[i].id) == items.remove(i),
    decreases items.len(),
{
    let front = items.drop_last();
    assert(front.push(items.last()) == items);
    without_id_of_push(front, items.last(), items[i].id);
    if i == items.len() - 1 {
        remove_absent_changes_nothing(front, items[i].id);
    } else {
        remove_takes_out_one(front, i);
    }
}

/// In a list of unique identifiers every record is the only one with its
/// identifier.
pub proof fn unique_ids_occur_once(items: Seq<TodoView>, i: int)
    requires
        ids_unique(items),
        0 <= i < items.len(),
    ensures
        only_one_with_id_at(items, i),
{
}

/// Adding a record whose identifier is new keeps identifiers unique.
pub proof fn add_new_id_keeps_ids_unique(items: Seq<TodoView>, todo: TodoView)
    requires
        ids_unique(items),
        !has_id(items, todo.id),
    ensures
        ids_unique(items.push(todo)),
{
}

/// Removing keeps identifiers unique.
pub proof fn remove_keeps_ids_unique(items: Seq<TodoView>, id: Seq<char>)
    requires
        ids_unique(items),
    ensures
        ids_unique(without_id(items, id)),
    decreases items.len(),
{
    if items.len() > 0 {
        let front = items.drop_last();
        let last = items.last();
        assert(front.push(last) == items);
        without_id_of_push(front, last, id);
        remove_keeps_ids_unique(front, id);
        if last.id != id {
            // No record that stays has the identifier of the last one.
            let kept = without_id(front, id);
            assert forall|k: int| 0 <= k < kept.len() implies (#[trigger] kept[k]).id
                != last.id by {
                remove_keeps_exactly_the_others(front, id, kept[k]);
                let at = choose|at: int| 0 <= at < front.len() && front[at] == kept[k];
                assert(items[at].id != last.id);
            }
        }
    }
}

/// Replacing is removing by the record's identifier, then adding the record.
pub proof fn replace_is_remove_then_add(items: Seq<TodoView>, todo: TodoView)
    ensures
        apply(items, CommandView::Replace(todo)) == apply(
            apply(items, CommandView::Remove(todo.id)),
            CommandView::Add(todo),
        ),
{
}

/// After a replacement the record stands at the end of the list, and it is
/// the only one with its identifier.
pub proof fn replace_leaves_one_with_its_id(items: Seq<TodoView>, todo: TodoView)
    ensures
        only_one_with_id_at(
            apply(items, CommandView::Replace(todo)),
            apply(items, CommandView::Replace(todo)).len() - 1,
        ),
        apply(items, CommandView::Replace(todo)).last() == todo,
{
}

/// Where the records with other identifiers are unique among themselves,
/// no identifier occurs twice after a replacement.
pub proof fn replace_leaves_ids_unique(items: Seq<TodoView>, todo: TodoView)
    requires
        ids_unique(without_id(items, todo.id)),
    ensures
        ids_unique(apply(items, CommandView::Replace(todo))),
{
}

/// Replacing keeps identifiers unique.
pub proof fn replace_keeps_ids_unique(items: Seq<TodoView>, todo: TodoView)
    requires
        ids_unique(items),
    ensures
        ids_unique(apply(items, CommandView::Replace(todo))),
{
    remove_keeps_ids_unique(items, todo.id);
}

/// Where the record at index `i` is the only one with the identifier of
/// `todo`, replacing takes out that record and puts `todo` at the end: the
/// list keeps its length.
pub proof fn replace_swaps_one(items: Seq<TodoView>, todo: TodoView, i: int)
    requires
        only_one_with_id_at(items, i),
        items[i].id == todo.id,
    ensures
        apply(items, CommandView::Replace(todo)) == items.remove(i).push(todo),
        apply(items, CommandView::Replace(todo)).len() == items.len(),
{
    remove_takes_out_one(items, i);
}

/// Replaying nothing leaves the list as it is.
pub proof fn replay_of_nothing(items: Seq<TodoView>)
    ensures
        replay(items, Seq::<CommandView>::empty()) == items,
{
}

/// Replaying a sequence with one more command at its end is replaying the
/// sequence and then applying that command.
pub proof fn replay_then_one_more(
    items: Seq<TodoView>,
    commands: Seq<CommandView>,
    command: CommandView,
)
    ensures
        replay(items, commands.push(command)) == apply(replay(items, commands), command),
    decreases commands.len(),
{
    let longer = commands.push(command);
    if commands.len() == 0 {
        assert(replay(apply(items, command), longer.drop_first()) == apply(items, command));
    } else {
        assert(longer.drop_first() == commands.drop_first().push(command));
        replay_then_one_more(apply(items, commands.first()), commands.drop_first(), command);
    }
}

/// Replaying one sequence after another is replaying the two put together.
pub proof fn replay_in_two_parts(
    items: Seq<TodoView>,
    first: Seq<CommandView>,
    second: Seq<CommandView>,
)
    ensures
        replay(items, first + second) == replay(replay(items, first), second),
    decreases first.len(),
{
    if first.len() > 0 {
        assert((first + second).drop_first() == first.drop_first() + second);
        replay_in_two_parts(apply(items, first.first()), first.drop_first(), second);
    }
}

} // verus!
