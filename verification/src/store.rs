//! The store: the one owner of the list of records.

use vstd::prelude::*;
use crate::seq_facts::filter_of_push;
use crate::todo::{views, Todo, TodoView};

verus! {

/// The records of `items` whose identifier is not `id`, in their order.
pub open spec fn without_id(items: Seq<TodoView>, id: Seq<char>) -> Seq<TodoView> {
    items.filter(|t: TodoView| t.id != id)
}

/// True when some record of `items` has the identifier `id`.
pub open spec fn has_id(items: Seq<TodoView>, id: Seq<char>) -> bool {
    exists|i: int| 0 <= i < items.len() && (#[trigger] items[i]).id == id
}

/// True when no two records of `items` have the same identifier.
pub open spec fn ids_unique(items: Seq<TodoView>) -> bool {
    forall|i: int, j: int|
        0 <= i < j < items.len() ==> (#[trigger] items[i]).id != (#[trigger] items[j]).id
}

/// True when the record at index `i` is the only one with its identifier.
pub open spec fn only_one_with_id_at(items: Seq<TodoView>, i: int) -> bool {
    &&& 0 <= i < items.len()
    &&& forall|j: int|
        0 <= j < items.len() && j != i ==> (#[trigger] items[j]).id != items[i].id
}

/// Taking out of an empty list leaves it empty.
pub proof fn without_id_of_empty(id: Seq<char>)
    ensures
        without_id(Seq::<TodoView>::empty(), id) == Seq::<TodoView>::empty(),
{
}

/// Taking out of a list with one more record at its end: that record stays
/// at the end when its identifier differs, and leaves when it is the same.
pub proof fn without_id_of_push(items: Seq<TodoView>, last: TodoView, id: Seq<char>)
    ensures
        without_id(items.push(last), id) == if last.id != id {
            without_id(items, id).push(last)
        } else {
            without_id(items, id)
        },
{
    filter_of_push(items, last, |t: TodoView| t.id != id);
}

/// A change to the list, as it is sent to the store.
#[derive(Debug)]
pub enum Command {
    /// Put the record at the end of the list.
    Add(Todo),
    /// Put the record in the place of those with its identifier.
    Replace(Todo),
    /// Take out the records with this identifier.
    Remove(String),
}

/// What a [`Command`] holds, with each string as the sequence of its
/// characters.
pub enum CommandView {
    Add(TodoView),
    Replace(TodoView),
    Remove(Seq<char>),
}

impl View for Command {
    type V = CommandView;

    open spec fn view(&self) -> CommandView {
        match self {
            Command::Add(todo) => CommandView::Add(todo@),
            Command::Replace(todo) => CommandView::Replace(todo@),
            Command::Remove(id) => CommandView::Remove(id@),
        }
    }
}

/// The views of a sequence of commands, one for one.
pub open spec fn command_views(commands: Seq<Command>) -> Seq<CommandView> {
    commands.map_values(|c: Command| c@)
}

/// The list after one command: adding appends, replacing takes out by
/// identifier and then appends, removing takes out by identifier.
pub open spec fn apply(items: Seq<TodoView>, command: CommandView) -> Seq<TodoView> {
    match command {
        CommandView::Add(todo) => items.push(todo),
        CommandView::Replace(todo) => without_id(items, todo.id).push(todo),
        CommandView::Remove(id) => without_id(items, id),
    }
}

/// The list after a command that may be absent: no command, no change.
pub open spec fn apply_if_any(items: Seq<TodoView>, command: Option<CommandView>) -> Seq<
    TodoView,
> {
    match command {
        Some(c) => apply(items, c),
        None => items,
    }
}

/// The list after a sequence of commands, the first of them applied first.
pub open spec fn replay(items: Seq<TodoView>, commands: Seq<CommandView>) -> Seq<TodoView>
    decreases commands.len(),
{
    if commands.len() == 0 {
        items
    } else {
        replay(apply(items, commands.first()), commands.drop_first())
    }
}

/// The list of records, in the order in which they were put in.
///
/// The store does not check that identifiers are unique: that is up to whoever
/// adds records. Its methods take the store by reference, so Rust's borrowing
/// rules keep two of them from running at once; to share a store between
/// threads, keep it behind a lock.
#[derive(Debug)]
pub struct Store {
    items: Vec<Todo>,
}

impl View for Store {
    type V = Seq<TodoView>;

    closed spec fn view(&self) -> Seq<TodoView> {
        views(self.items@)
    }
}

/// Moves the records whose identifier is not `id` into a new vector.
fn keep_other_ids(items: Vec<Todo>, id: &String) -> (kept: Vec<Todo>)
    ensures
        views(kept@) == without_id(views(items@), id@),
{
    let mut kept: Vec<Todo> = Vec::new();
    let ghost all = views(items@);
    for todo in it: items
        invariant
            it.seq() == items@,
            all == views(items@),
            views(kept@) == without_id(all.take(it.index()), id@),
    {
        proof {
            let n = it.index();
            without_id_of_push(all.take(n), todo@, id@);
            assert(all.take(n + 1) == all.take(n).push(todo@));
        }
        if !(todo.id == *id) {
            kept.push(todo);
        }
    }
    assert(all.take(all.len() as int) == all);
    kept
}

impl Default for Store {
    fn default() -> (store: Store)
        ensures
            store@ == Seq::<TodoView>::empty(),
    {
        Store::new()
    }
}

impl Store {
    /// An empty store.
    pub fn new() -> (store: Store)
        ensures
            store@ == Seq::<TodoView>::empty(),
    {
        Store { items: Vec::new() }
    }

    /// A copy of all records, in the order the store keeps them. The copy
    /// does not change when the store does.
    pub fn list(&self) -> (copy: Vec<Todo>)
        ensures
            views(copy@) == self@,
    {
        let mut copy: Vec<Todo> = Vec::new();
        let n = self.items.len();
        let mut i: usize = 0;
        while i < n
            invariant
                n == self.items.len(),
                i <= n,
                copy@ == self.items@.take(i as int),
            decreases n - i,
        {
            copy.push(self.items[i].clone());
            i = i + 1;
        }
        copy
    }

    /// Takes out every record with the identifier `id`.
    fn take_out(&mut self, id: &String)
        ensures
            final(self)@ == without_id(old(self)@, id@),
    {
        let mut items: Vec<Todo> = Vec::new();
        core::mem::swap(&mut self.items, &mut items);
        self.items = keep_other_ids(items, id);
    }

    /// Puts `todo` at the end of the list. Whether its identifier is already
    /// in the list is not looked at.
    pub fn add(&mut self, todo: Todo)
        ensures
            final(self)@ == old(self)@.push(todo@),
    {
        self.items.push(todo);
    }

    /// Takes out every record with the identifier `id`. Where there is none,
    /// the list stays as it is.
    pub fn remove(&mut self, id: &str)
        ensures
            final(self)@ == without_id(old(self)@, id@),
    {
        let id: String = id.to_owned();
        self.take_out(&id);
    }

    /// Takes out every record with the identifier of `todo`, then puts `todo`
    /// at the end of the list. Where there was none, this is `add`.
    pub fn replace(&mut self, todo: Todo)
        ensures
            final(self)@ == without_id(old(self)@, todo@.id).push(todo@),
    {
        self.take_out(&todo.id);
        self.add(todo);
    }

    /// Carries out one command.
    pub fn execute(&mut self, command: Command)
        ensures
            final(self)@ == apply(old(self)@, command@),
    {
        match command {
            Command::Add(todo) => self.add(todo),
            Command::Replace(todo) => self.replace(todo),
            Command::Remove(id) => self.take_out(&id),
        }
    }

    /// Carries out a sequence of commands, the first of them first.
    pub fn execute_all(&mut self, commands: Vec<Command>)
        ensures
            final(self)@ == replay(old(self)@, command_views(commands@)),
    {
        let ghost all = command_views(commands@);
        let ghost start = self@;
        assert(all.skip(0) == all);
        for command in it: commands
            invariant
                it.seq() == commands@,
                all == command_views(commands@),
                replay(self@, all.skip(it.index())) == replay(start, all),
        {
            assert(all.skip(it.index()).drop_first() == all.skip(it.index() + 1));
            self.execute(command);
        }
    }
}

} // verus!
