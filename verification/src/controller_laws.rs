//! What holds of the controller and the store together, whatever the state
//! and the list.

use vstd::prelude::*;
use crate::controller::{command_of, edited, next_state, ControllerView, EventView, Mode};
use crate::store::{apply_if_any, ids_unique, only_one_with_id_at, without_id};
use crate::store_laws::{remove_takes_out_one, replace_swaps_one};
use crate::todo::TodoView;

verus! {

/// "Cancel" sends no command, so the list stays as it is; it closes the
/// dialog and leaves mode and working copy alone.
pub proof fn cancel_leaves_the_list(state: ControllerView, items: Seq<TodoView>)
    ensures
        command_of(state, EventView::Cancel) is None,
        apply_if_any(items, command_of(state, EventView::Cancel)) == items,
        next_state(state, EventView::Cancel) == (ControllerView { modal_visible: false, ..state }),
{
}

/// Opening the dialog, for a new record or for a change, sends no command,
/// so the list stays as it is.
pub proof fn opening_leaves_the_list(state: ControllerView, items: Seq<TodoView>, item: TodoView)
    ensures
        apply_if_any(items, command_of(state, EventView::New(item))) == items,
        apply_if_any(items, command_of(state, EventView::Edit(item))) == items,
        next_state(state, EventView::New(item)).modal_visible,
        next_state(state, EventView::Edit(item)).modal_visible,
{
}

/// "Save" in a dialog that was opened for a new record puts the edited
/// record at the end of the list and changes nothing else.
pub proof fn save_of_new_appends(
    state: ControllerView,
    items: Seq<TodoView>,
    title: Seq<char>,
    description: Seq<char>,
)
    requires
        state.mode == Mode::Add,
    ensures
        apply_if_any(items, command_of(state, EventView::Save { title, description }))
            == items.push(edited(state.editing_item, title, description)),
        !next_state(state, EventView::Save { title, description }).modal_visible,
{
}

/// "Save" in a dialog that was opened for a change leaves the edited record,
/// with the identifier and the creation time of the working copy, at the end
/// of the list as the only one with its identifier. Where the other records
/// were unique among themselves, no identifier occurs twice afterwards.
pub proof fn save_of_change_replaces(
    state: ControllerView,
    items: Seq<TodoView>,
    title: Seq<char>,
    description: Seq<char>,
)
    requires
        state.mode == Mode::Edit,
    ensures
        ({
            let record = edited(state.editing_item, title, description);
            let out = apply_if_any(items, command_of(state, EventView::Save { title, description }));
            &&& record.id == state.editing_item.id
            &&& record.created == state.editing_item.created
            &&& record.title == title
            &&& record.description == description
            &&& out.len() > 0
            &&& out.last() == record
            &&& forall|k: int| 0 <= k < out.len() - 1 ==> (#[trigger] out[k]).id != record.id
            &&& ids_unique(without_id(items, record.id)) ==> ids_unique(out)
        }),
{
}

/// "Save" in a dialog that was opened on the row at index `i`, where that
/// row's record is the only one with its identifier, takes out that record
/// and puts the edited one at the end: the list keeps its length.
pub proof fn save_of_change_swaps_the_row(
    state: ControllerView,
    items: Seq<TodoView>,
    i: int,
    title: Seq<char>,
    description: Seq<char>,
)
    requires
        state.mode == Mode::Edit,
        only_one_with_id_at(items, i),
        state.editing_item == items[i],
    ensures
        apply_if_any(items, command_of(state, EventView::Save { title, description }))
            == items.remove(i).push(edited(items[i], title, description)),
{
    replace_swaps_one(items, edited(items[i], title, description), i);
}

/// "Delete" on the row at index `i`, where that row's record is the only one
/// with its identifier, takes out that record and no other, and leaves the
/// dialog as it is.
pub proof fn delete_takes_out_the_row(state: ControllerView, items: Seq<TodoView>, i: int)
    requires
        only_one_with_id_at(items, i),
    ensures
        apply_if_any(items, command_of(state, EventView::Delete(items[i]))) == items.remove(i),
        next_state(state, EventView::Delete(items[i])) == state,
{
    remove_takes_out_one(items, i);
}

} // verus!
