use oidar::stream_loader::{connected_after_change, connected_after_chunk, read_plan, url_change, ReadPlan, UrlChange};

#[test]
fn new_url_is_connected() {
    match url_change(Some(Some("http://s/".to_string()))) {
        UrlChange::Connect(u) => assert_eq!(u, "http://s/"),
        other => panic!("unexpected {other:?}"),
    }
}

#[test]
fn no_url_disconnects_and_gives_no_data() {
    let change = url_change(Some(None));
    assert!(matches!(change, UrlChange::Disconnect));
    let connected = connected_after_change(&change, true, false);
    assert!(!connected);
    assert_eq!(read_plan(connected), ReadPlan::NoData);
}

#[test]
fn unchanged_url_keeps_connection() {
    let change = url_change(None);
    assert!(matches!(change, UrlChange::Keep));
    assert!(connected_after_change(&change, true, false));
    assert!(!connected_after_change(&change, false, false));
    assert_eq!(read_plan(true), ReadPlan::ReadChunk);
}

#[test]
fn failed_connect_drops_old_stream() {
    let change = url_change(Some(Some("http://t/".to_string())));
    assert!(connected_after_change(&change, false, true));
    assert!(!connected_after_change(&change, true, false));
    assert_eq!(read_plan(connected_after_change(&change, true, false)), ReadPlan::NoData);
}

#[test]
fn end_of_stream_disconnects() {
    assert!(!connected_after_chunk(false));
    assert!(connected_after_chunk(true));
}
