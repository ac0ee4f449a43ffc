//! The list as it is shown: one row for each record, or a note that there is
//! none.

use vstd::prelude::*;
use crate::todo::{views, Todo, TodoView};

verus! {

/// What tells one drawn row from another: identifier, title and description.
/// A row whose key is not among the keys drawn before is drawn anew.
#[derive(Debug, PartialEq, Eq, Hash)]
pub struct RowKey {
    pub id: String,
    pub title: String,
    pub description: String,
}

/// What a [`RowKey`] holds, with each string as the sequence of its
/// characters.
pub struct RowKeyView {
    pub id: Seq<char>,
    pub title: Seq<char>,
    pub description: Seq<char>,
}

impl View for RowKey {
    type V = RowKeyView;

    open spec fn view(&self) -> RowKeyView {
        RowKeyView { id: self.id@, title: self.title@, description: self.description@ }
    }
}

impl Clone for RowKey {
    fn clone(&self) -> (copy: Self)
        ensures
            copy == *self,
    {
        RowKey {
            id: self.id.clone(),
            title: self.title.clone(),
            description: self.description.clone(),
        }
    }
}

/// One row of the list: its key, and the record that its edit and delete
/// buttons speak of. The row shows the record's title and description.
#[derive(Debug)]
pub struct Row {
    pub key: RowKey,
    pub item: Todo,
}

impl Clone for Row {
    fn clone(&self) -> (copy: Self)
        ensures
            copy == *self,
    {
        Row { key: self.key.clone(), item: self.item.clone() }
    }
}

/// What a [`Row`] holds, by views.
pub struct RowView {
    pub key: RowKeyView,
    pub item: TodoView,
}

impl View for Row {
    type V = RowView;

    open spec fn view(&self) -> RowView {
        RowView { key: self.key@, item: self.item@ }
    }
}

/// The list as it is shown: the rows from top to bottom, and whether the
/// note that there are no records stands in their place.
#[derive(Debug)]
pub struct Listing {
    pub rows: Vec<Row>,
    pub placeholder: bool,
}

/// The key of the row that shows `item`.
pub open spec fn key_of(item: TodoView) -> RowKeyView {
    RowKeyView { id: item.id, title: item.title, description: item.description }
}

/// The row that shows `item`.
pub open spec fn row_of(item: TodoView) -> RowView {
    RowView { key: key_of(item), item }
}

/// The views of a sequence of rows, one for one.
pub open spec fn row_views(rows: Seq<Row>) -> Seq<RowView> {
    rows.map_values(|r: Row| r@)
}

/// The key of the row that shows `item`.
pub fn row_key(item: &Todo) -> (key: RowKey)
    ensures
        key@ == key_of(item@),
{
    RowKey {
        id: item.id.clone(),
        title: item.title.clone(),
        description: item.description.clone(),
    }
}

/// Lays out the list: one row for each record, in the order given, and the
/// note in their place exactly when there is no record.
pub fn render(items: Vec<Todo>) -> (listing: Listing)
    ensures
        listing.placeholder <==> items@.len() == 0,
        row_views(listing.rows@) == views(items@).map_values(|t: TodoView| row_of(t)),
{
    let placeholder = items.len() == 0;
    let mut rows: Vec<Row> = Vec::new();
    let ghost shown = views(items@).map_values(|t: TodoView| row_of(t));
    for item in it: items
        invariant
            it.seq() == items@,
            shown == views(items@).map_values(|t: TodoView| row_of(t)),
            row_views(rows@) == shown.take(it.index()),
    {
        let key = row_key(&item);
        let ghost before = rows@;
        rows.push(Row { key, item });
        assert(row_views(rows@) == row_views(before).push(row_of(item@)));
    }
    Listing { rows, placeholder }
}

/// Two rows have the same key exactly when their records agree in
/// identifier, title and description: a change to any of the three makes
/// the row a new one, and a change to the creation time alone does not.
pub proof fn same_key_means_same_shown_fields(a: TodoView, b: TodoView)
    ensures
        key_of(a) == key_of(b) <==> a.id == b.id && a.title == b.title && a.description
            == b.description,
{
}

} // verus!
