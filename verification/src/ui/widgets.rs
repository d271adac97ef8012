//! Pure widget state: the user mode a status line shows, how a widget
//! answers an event, and the connection-list widget's selection.

use vstd::prelude::*;

use crate::config::Connection;

verus! {

/// The modal state a user drives the screens in.
#[derive(Debug, PartialEq, Clone)]
pub enum UserMode {
    Normal,
    Insert,
    SearchInput,
    Search(String, usize),
    Command,
}

/// How a widget answers an event it was handed.
#[derive(Debug, PartialEq)]
pub enum WidgetReaction {
    ExitFromWidget,
    Nothing,
}

/// The connection-list widget: the connections it shows and the
/// selected row.
pub struct ConnectionsListWidget {
    connections: Vec<Connection>,
    selected_connection_index: usize,
}

impl ConnectionsListWidget {
    /// How many connections the widget shows.
    pub closed spec fn count(&self) -> nat {
        self.connections@.len()
    }

    /// Which row is selected.
    pub closed spec fn selected(&self) -> nat {
        self.selected_connection_index as nat
    }

    /// A widget showing these connections, with the first row selected.
    pub fn new(connections: Vec<Connection>) -> (r: Self)
        ensures
            r.count() == connections@.len(),
            r.selected() == 0,
    {
        Self { connections, selected_connection_index: 0 }
    }
}

} // verus!
