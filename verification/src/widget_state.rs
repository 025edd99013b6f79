//! What is taken on trust about the selection states of `ratatui`.
//!
//! A list or table widget of `ratatui` is drawn from a state value that
//! records the selected row. The fields of these values are private to
//! `ratatui`, so the selection they hold is given a name here, and the
//! methods that read and write it are described over that name. Nothing
//! in this file is proved.

use ratatui::widgets::{ListState, TableState};
use vstd::prelude::*;

verus! {

/// `ratatui::widgets::ListState`, the state of a list widget, as a value
/// whose inside is not looked into.
#[verifier::external_type_specification]
#[verifier::external_body]
pub struct ExListState(ListState);

/// `ratatui::widgets::TableState`, the state of a table widget, as a
/// value whose inside is not looked into.
#[verifier::external_type_specification]
#[verifier::external_body]
pub struct ExTableState(TableState);

/// The row that a `ListState` holds as selected, if any: what
/// `ListState::selected` returns.
pub uninterp spec fn list_selected(state: ListState) -> Option<usize>;

/// The row that a `TableState` holds as selected, if any: what
/// `TableState::selected` returns.
pub uninterp spec fn table_selected(state: TableState) -> Option<usize>;

/// `ListState::default`: a fresh state has no row selected.
pub assume_specification[ <ListState as Default>::default ]() -> (state: ListState)
    ensures
        list_selected(state) == None::<usize>,
;

/// `ListState::selected`: returns the selected row, and changes nothing.
pub assume_specification[ ListState::selected ](state: &ListState) -> (selected: Option<usize>)
    ensures
        selected == list_selected(*state),
;

/// `ListState::select`: afterwards the state holds `index` as its selected row.
pub assume_specification[ ListState::select ](state: &mut ListState, index: Option<usize>)
    ensures
        list_selected(*final(state)) == index,
;

/// `TableState::default`: a fresh state has no row selected.
pub assume_specification[ <TableState as Default>::default ]() -> (state: TableState)
    ensures
        table_selected(state) == None::<usize>,
;

/// `TableState::clone`: the copy is equal to the state it was made from,
/// field by field.
pub assume_specification[ <TableState as Clone>::clone ](state: &TableState) -> (copy: TableState)
    ensures
        copy == *state,
;

/// `TableState::selected`: returns the selected row, and changes nothing.
pub assume_specification[ TableState::selected ](state: &TableState) -> (selected: Option<usize>)
    ensures
        selected == table_selected(*state),
;

/// `TableState::select`: afterwards the state holds `index` as its selected row.
pub assume_specification[ TableState::select ](state: &mut TableState, index: Option<usize>)
    ensures
        table_selected(*final(state)) == index,
;

} // verus!
