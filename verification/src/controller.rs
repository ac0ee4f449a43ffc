//! The state of the editor dialog and what each user action does to it.

use vstd::prelude::*;
use crate::ident::is_random_uuid_text;
use crate::store::{apply_if_any, Command, CommandView, Store};
use crate::todo::{Todo, TodoView};

verus! {

/// What the dialog was opened for.
#[derive(Clone, Copy, Debug, PartialEq, Eq, Structural)]
pub enum Mode {
    /// To make a new record.
    Add,
    /// To change a record that is in the list.
    Edit,
}

/// The state behind the screen: whether the dialog is shown, what it was
/// opened for, and the record it works on.
///
/// The record is a working copy. The list itself belongs to the store and is
/// changed only by the commands that [`Controller::handle`] hands out.
#[derive(Debug)]
pub struct Controller {
    pub modal_visible: bool,
    pub mode: Mode,
    pub editing_item: Todo,
}

/// What a [`Controller`] holds, with the record by its view.
pub struct ControllerView {
    pub modal_visible: bool,
    pub mode: Mode,
    pub editing_item: TodoView,
}

impl View for Controller {
    type V = ControllerView;

    open spec fn view(&self) -> ControllerView {
        ControllerView {
            modal_visible: self.modal_visible,
            mode: self.mode,
            editing_item: self.editing_item@,
        }
    }
}

/// Something the user did.
#[derive(Debug)]
pub enum Event {
    /// Pressed the button for a new record. The record is the placeholder
    /// that the dialog starts from.
    New(Todo),
    /// Pressed the edit button of the row that shows this record.
    Edit(Todo),
    /// Pressed "Save" in the dialog, whose two fields held these texts.
    Save { title: String, description: String },
    /// Pressed "Cancel" in the dialog.
    Cancel,
    /// Pressed the delete button of the row that shows this record.
    Delete(Todo),
}

/// What an [`Event`] holds, with each string as the sequence of its
/// characters.
pub enum EventView {
    New(TodoView),
    Edit(TodoView),
    Save { title: Seq<char>, description: Seq<char> },
    Cancel,
    Delete(TodoView),
}

impl View for Event {
    type V = EventView;

    open spec fn view(&self) -> EventView {
        match self {
            Event::New(placeholder) => EventView::New(placeholder@),
            Event::Edit(row) => EventView::Edit(row@),
            Event::Save { title, description } => EventView::Save {
                title: title@,
                description: description@,
            },
            Event::Cancel => EventView::Cancel,
            Event::Delete(row) => EventView::Delete(row@),
        }
    }
}

/// The state at the start: the dialog closed, set for a new record, with
/// `placeholder` as its working copy.
pub open spec fn initial(placeholder: TodoView) -> ControllerView {
    ControllerView { modal_visible: false, mode: Mode::Add, editing_item: placeholder }
}

/// The record that "Save" sends: the working copy with the texts of the two
/// fields in place of its own. Identifier and creation time stay.
pub open spec fn edited(item: TodoView, title: Seq<char>, description: Seq<char>) -> TodoView {
    TodoView { title, description, ..item }
}

/// The state after an event.
///
/// "New" and "Edit" open the dialog on the given record, in their mode.
/// "Save" and "Cancel" close it and leave mode and working copy as they are.
/// "Delete" changes nothing.
pub open spec fn next_state(state: ControllerView, event: EventView) -> ControllerView {
    match event {
        EventView::New(placeholder) => ControllerView {
            modal_visible: true,
            mode: Mode::Add,
            editing_item: placeholder,
        },
        EventView::Edit(row) => ControllerView {
            modal_visible: true,
            mode: Mode::Edit,
            editing_item: row,
        },
        EventView::Save { .. } => ControllerView { modal_visible: false, ..state },
        EventView::Cancel => ControllerView { modal_visible: false, ..state },
        EventView::Delete(_) => state,
    }
}

/// The command that an event sends to the store, if it sends one.
///
/// "Save" sends the edited record: to be added where the dialog was opened
/// for a new record, to be put in place of the old one where it was opened
/// for a change. "Delete" sends the row's identifier to be removed. The
/// others send nothing. After a command the list is to be read again.
pub open spec fn command_of(state: ControllerView, event: EventView) -> Option<CommandView> {
    match event {
        EventView::New(_) => None,
        EventView::Edit(_) => None,
        EventView::Save { title, description } => Some(
            match state.mode {
                Mode::Add => CommandView::Add(edited(state.editing_item, title, description)),
                Mode::Edit => CommandView::Replace(edited(state.editing_item, title, description)),
            },
        ),
        EventView::Cancel => None,
        EventView::Delete(row) => Some(CommandView::Remove(row.id)),
    }
}

/// The view of a command that may be absent.
pub open spec fn command_view(command: Option<Command>) -> Option<CommandView> {
    match command {
        Some(c) => Some(c@),
        None => None,
    }
}

impl Clone for Controller {
    fn clone(&self) -> (copy: Self)
        ensures
            copy == *self,
    {
        Controller {
            modal_visible: self.modal_visible,
            mode: self.mode,
            editing_item: self.editing_item.clone(),
        }
    }
}

impl Controller {
    /// The state at the start, with `placeholder` as the working copy.
    pub fn with_item(placeholder: Todo) -> (controller: Controller)
        ensures
            controller@ == initial(placeholder@),
    {
        Controller { modal_visible: false, mode: Mode::Add, editing_item: placeholder }
    }

    /// The state at the start, with a freshly made empty record as the
    /// working copy.
    pub fn new() -> (controller: Controller)
        ensures
            !controller@.modal_visible,
            controller@.mode == Mode::Add,
            controller@.editing_item.title == Seq::<char>::empty(),
            controller@.editing_item.description == Seq::<char>::empty(),
            is_random_uuid_text(controller@.editing_item.id),
    {
        Controller::with_item(Todo::new_empty())
    }

    /// Takes one event: moves to the next state and hands out the command
    /// for the store, if the event calls for one.
    pub fn handle(&mut self, event: Event) -> (command: Option<Command>)
        ensures
            final(self)@ == next_state(old(self)@, event@),
            command_view(command) == command_of(old(self)@, event@),
    {
        match event {
            Event::New(placeholder) => {
                self.editing_item = placeholder;
                self.mode = Mode::Add;
                self.modal_visible = true;
                None
            },
            Event::Edit(row) => {
                self.editing_item = row;
                self.mode = Mode::Edit;
                self.modal_visible = true;
                None
            },
            Event::Save { title, description } => {
                let record = self.editing_item.with_texts(title, description);
                self.modal_visible = false;
                match self.mode {
                    Mode::Add => Some(Command::Add(record)),
                    Mode::Edit => Some(Command::Replace(record)),
                }
            },
            Event::Cancel => {
                self.modal_visible = false;
                None
            },
            Event::Delete(row) => Some(Command::Remove(row.id)),
        }
    }

    /// Takes one event and carries out on `store` the command that it calls
    /// for: the controller and the store in one process.
    pub fn handle_with(&mut self, event: Event, store: &mut Store)
        ensures
            final(self)@ == next_state(old(self)@, event@),
            final(store)@ == apply_if_any(old(store)@, command_of(old(self)@, event@)),
    {
        match self.handle(event) {
            Some(command) => store.execute(command),
            None => {},
        }
    }
}

} // verus!
