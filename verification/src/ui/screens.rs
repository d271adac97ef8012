//! Pure state of the two screens: the connection list with its selected
//! row, and the query page with its focused widget and input buffers.

use vstd::prelude::*;

use crate::config::Connection;
use crate::dbclient::fetcher::Fetcher;

verus! {

/// What a widget's content amounts to when read back.
pub enum Content {
    SimpleString(String),
}

/// Which editing mode the query screen is in.
#[derive(PartialEq, Eq, Structural, Debug, Clone, Copy)]
pub enum InputMode {
    Normal,
    Editing,
    Command,
}

/// What a command-line edit callback reports.
pub enum EventKind {
    Edit,
    Enter,
}

/// The connection-list screen: the configured connections and the
/// selected row.
pub struct MainState {
    pub connections_list: Vec<Connection>,
    pub selected_connection_index: usize,
}

impl MainState {
    /// Moves the selection one row down, stopping at the last row.
    pub fn select_next_connection(&mut self)
        requires
            old(self).connections_list@.len() > 0,
        ensures
            final(self).connections_list@ == old(self).connections_list@,
            final(self).selected_connection_index == if old(self).selected_connection_index
                < old(self).connections_list@.len() - 1 {
                old(self).selected_connection_index + 1
            } else {
                old(self).selected_connection_index as int
            },
    {
        let max_index = self.connections_list.len() - 1;
        if self.selected_connection_index < max_index {
            self.selected_connection_index += 1;
        }
    }

    /// Moves the selection one row up, stopping at the first row.
    pub fn select_prev_connection(&mut self)
        ensures
            final(self).connections_list@ == old(self).connections_list@,
            final(self).selected_connection_index == if old(self).selected_connection_index > 0 {
                old(self).selected_connection_index - 1
            } else {
                old(self).selected_connection_index as int
            },
    {
        if self.selected_connection_index > 0 {
            self.selected_connection_index -= 1;
        }
    }
}

/// Which widget of the query screen holds the focus.
#[derive(PartialEq, Eq, Structural, Debug, Clone, Copy)]
pub enum QueryWidgetSelector {
    DbObjects,
    QueryWidget,
    QueryResultWidget,
}

/// The query screen's state: the connection it speaks to, its backend
/// client, the query text, and the focused widget.
pub struct QueryState<Fetch> where Fetch: Fetcher {
    pub connection: Connection,
    pub client: Fetch,
    pub query_string: String,
    pub query_widget: QueryWidgetSelector,
}

/// The query-line widget's buffers and mode.
pub struct QueryWidgetState {
    pub input_mode: InputMode,
    pub query_string: String,
    pub command_string: String,
}

/// The result widget keeps no state of its own.
pub struct QueryResultWidgetState {}

} // verus!
