//! The pure UI state: the widget mailbox, list selection, the dummy
//! backend, and connection labels.

use dbview::config::Connection;
use dbview::config::ConnectionType;
use dbview::dbclient::dummy::DummyFetcher;
use dbview::dbclient::fetcher::FetchRequest;
use dbview::dbclient::fetcher::FetchResult;
use dbview::dbclient::fetcher::Fetcher;
use dbview::dbclient::query_builder::QueryElement;
use dbview::ui::pipe::Error;
use dbview::ui::pipe::Payload;
use dbview::ui::pipe::Pipe;
use dbview::ui::screens::MainState;
use dbview::ui::widgets::ConnectionsListWidget;

fn connection(name: &str) -> Connection {
    Connection {
        connection_type: ConnectionType::Redis,
        name: name.to_string(),
        connection_string: "redis://localhost/".to_string(),
    }
}

#[test]
fn pipe_hands_messages_back_newest_first() {
    let mut pipe = Pipe::new();
    assert_eq!(pipe.try_get_db_objects(), Err(Error::NoMessages));
    assert_eq!(pipe.try_get_user_mode(), Err(Error::NoMessages));

    let first = FetchResult::single("one".to_string());
    let second = FetchResult::single("two".to_string());
    assert_eq!(pipe.push_message(Payload::DbObjects(first.clone())), Ok(()));
    assert_eq!(pipe.push_message(Payload::DbObjects(second.clone())), Ok(()));
    assert_eq!(pipe.try_get_db_objects(), Ok(second));
    assert_eq!(pipe.try_get_db_objects(), Ok(first));
    assert_eq!(pipe.try_get_db_objects(), Err(Error::NoMessages));

    assert_eq!(pipe.push_message(Payload::UserMode("insert".to_string())), Ok(()));
    assert_eq!(pipe.try_get_user_mode(), Ok("insert".to_string()));
    assert_eq!(pipe.try_get_user_mode(), Err(Error::NoMessages));
}

#[test]
fn selection_moves_within_bounds() {
    let mut state = MainState {
        connections_list: vec![connection("a"), connection("b"), connection("c")],
        selected_connection_index: 0,
    };
    state.select_prev_connection();
    assert_eq!(state.selected_connection_index, 0);
    state.select_next_connection();
    assert_eq!(state.selected_connection_index, 1);
    state.select_next_connection();
    assert_eq!(state.selected_connection_index, 2);
    state.select_next_connection();
    assert_eq!(state.selected_connection_index, 2);
    state.select_prev_connection();
    assert_eq!(state.selected_connection_index, 1);
}

#[test]
fn dummy_backend_serves_its_fixed_objects() {
    let mut dummy = DummyFetcher::new();
    let expected = FetchResult::multiple(vec![
        "dummy_obj_1".to_string(),
        "dummy_obj_2".to_string(),
        "dummy_obj_3".to_string(),
        "dummy_obj_4".to_string(),
    ]);
    let request = FetchRequest {
        query: vec![QueryElement::RawQuery("anything".to_string())],
        limit: usize::MAX,
    };
    assert_eq!(dummy.fetch(&request), Ok(expected.clone()));
    assert_eq!(dummy.fetch_db_objects(), Ok(expected));
}

#[test]
fn connection_types_have_display_labels() {
    assert_eq!(ConnectionType::Redis.label(), "Redis");
    assert_eq!(ConnectionType::Postgres.label(), "Postgres");
    assert_eq!(ConnectionType::MySql.label(), "MySql");
}

#[test]
fn connections_list_widget_starts_at_the_first_row() {
    let _widget = ConnectionsListWidget::new(vec![connection("a"), connection("b")]);
}
