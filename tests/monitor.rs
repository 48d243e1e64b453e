use source_listener::connection::{connection_step, ConnectStep, ConnectionStatus};
use source_listener::error::MonitorError;
use source_listener::events::{classify_event, ChangeClassification, Facility, Operation};
use source_listener::listing::{collect_sources, list_item, ListStep, SourceCollector, SrcListState};
use source_listener::source::{
    default_source_name, get_default_source_index, SourceDatum, Sources, NO_DEFAULT_SOURCE,
};
use source_listener::state::{transition_notice, ListenerState, Notice, Refresh};

fn catalog(items: &[(u32, &str, bool)]) -> Sources {
    let mut s = Sources::new();
    for (i, name, mute) in items {
        s.insert(*i, SourceDatum::new(name.to_string(), *mute));
    }
    s
}

fn item(i: u32, name: &str, mute: bool) -> SrcListState {
    SrcListState::Item(i, SourceDatum::new(name.to_string(), mute))
}

fn state_with_default(items: &[(u32, &str, bool)], default: &str) -> ListenerState {
    ListenerState::new(catalog(items), &default.to_string()).unwrap()
}

#[test]
fn insert_and_get() {
    let s = catalog(&[(1, "mic", false), (2, "headset", true)]);
    assert_eq!(s.get(1).unwrap().name, "mic");
    assert!(!s.get(1).unwrap().mute);
    assert_eq!(s.get(2).unwrap().name, "headset");
    assert!(s.get(2).unwrap().mute);
    assert!(s.get(3).is_none());
}

#[test]
fn insert_same_index_replaces() {
    let s = catalog(&[(1, "mic", false), (1, "mic2", true)]);
    let d = s.get(1).unwrap();
    assert_eq!(d.name, "mic2");
    assert!(d.mute);
}

#[test]
fn empty_catalog_has_nothing() {
    let s = Sources::new();
    assert!(s.get(0).is_none());
    assert_eq!(get_default_source_index(&s, &"mic".to_string()), None);
}

#[test]
fn resolve_unique_name() {
    let s = catalog(&[(1, "mic", false), (7, "headset", true)]);
    assert_eq!(get_default_source_index(&s, &"headset".to_string()), Some(7));
    assert_eq!(get_default_source_index(&s, &"mic".to_string()), Some(1));
}

#[test]
fn resolve_missing_name() {
    let s = catalog(&[(1, "mic", false)]);
    assert_eq!(get_default_source_index(&s, &"speaker".to_string()), None);
}

#[test]
fn resolve_ambiguous_name() {
    let s = catalog(&[(1, "mic", false), (2, "mic", true), (3, "other", false)]);
    assert_eq!(get_default_source_index(&s, &"mic".to_string()), None);
    assert_eq!(get_default_source_index(&s, &"other".to_string()), Some(3));
}

#[test]
fn scenario_c_no_default_source() {
    let name = default_source_name(None);
    assert_eq!(name, NO_DEFAULT_SOURCE);
    assert_eq!(name, "No default source");
    let s = catalog(&[(1, "mic", false)]);
    assert_eq!(get_default_source_index(&s, &name), None);
    let mut st = state_with_default(&[(1, "mic", false)], "mic");
    let notice = st.reconcile(Refresh::Server { default_name: name, sources: catalog(&[(1, "mic", false)]) });
    assert_eq!(st.default_source, None);
    assert_eq!(notice, Some(Notice::NoDefault));
    assert_eq!(notice.unwrap().text(), "No default source");
}

#[test]
fn reported_default_name_is_kept() {
    assert_eq!(default_source_name(Some("alsa_input.usb".to_string())), "alsa_input.usb");
}

#[test]
fn list_item_without_name_is_unknown() {
    match list_item(4, None, true) {
        SrcListState::Item(i, d) => {
            assert_eq!(i, 4);
            assert_eq!(d.name, "unknown");
            assert!(d.mute);
        }
        _ => panic!("expected an item"),
    }
    match list_item(5, Some("mic".to_string()), false) {
        SrcListState::Item(i, d) => {
            assert_eq!(i, 5);
            assert_eq!(d.name, "mic");
            assert!(!d.mute);
        }
        _ => panic!("expected an item"),
    }
}

#[test]
fn collect_complete_listing() {
    let r = collect_sources(vec![item(1, "mic", false), item(2, "headset", true), SrcListState::Done]);
    let s = r.unwrap();
    assert_eq!(s.get(1).unwrap().name, "mic");
    assert_eq!(s.get(2).unwrap().name, "headset");
    assert!(s.get(3).is_none());
}

#[test]
fn collect_duplicate_index_last_wins() {
    let s = collect_sources(vec![item(1, "mic", false), item(1, "mic", true), SrcListState::Done]).unwrap();
    assert!(s.get(1).unwrap().mute);
}

#[test]
fn collect_empty_listing() {
    let s = collect_sources(vec![SrcListState::Done]).unwrap();
    assert!(s.get(0).is_none());
}

#[test]
fn scenario_d_error_after_two_items() {
    let r = collect_sources(vec![
        item(1, "mic", false),
        item(2, "headset", true),
        SrcListState::Error("Failed to retrieve ListResult".to_string()),
    ]);
    match r {
        Err(MonitorError::Query(msg)) => assert_eq!(msg, "Failed to retrieve ListResult"),
        _ => panic!("expected a query error"),
    }
}

#[test]
fn collect_without_final_message_is_disconnected() {
    let r = collect_sources(vec![item(1, "mic", false)]);
    assert!(matches!(r, Err(MonitorError::ChannelDisconnected)));
    assert!(matches!(collect_sources(vec![]), Err(MonitorError::ChannelDisconnected)));
}

#[test]
fn collect_ignores_messages_after_done() {
    let s = collect_sources(vec![item(1, "mic", false), SrcListState::Done, item(2, "late", true)]).unwrap();
    assert!(s.get(2).is_none());
}

#[test]
fn listing_twice_gives_equal_catalogs() {
    let a = collect_sources(vec![item(1, "mic", false), item(2, "headset", true), SrcListState::Done]).unwrap();
    let b = collect_sources(vec![item(2, "headset", true), item(1, "mic", false), SrcListState::Done]).unwrap();
    for i in 0..4u32 {
        match (a.get(i), b.get(i)) {
            (Some(x), Some(y)) => {
                assert_eq!(x.name, y.name);
                assert_eq!(x.mute, y.mute);
            }
            (None, None) => {}
            _ => panic!("catalogs differ at {}", i),
        }
    }
}

#[test]
fn collector_steps() {
    let c = SourceCollector::new();
    let c = match c.accept(item(3, "mic", true)) {
        ListStep::Pending(c) => c,
        ListStep::Finished(_) => panic!("finished early"),
    };
    match c.accept(SrcListState::Done) {
        ListStep::Finished(Ok(s)) => assert!(s.get(3).unwrap().mute),
        _ => panic!("expected a catalog"),
    }
}

#[test]
fn classify_events() {
    assert_eq!(classify_event(Facility::Source, Operation::Changed), Some(ChangeClassification::DeviceDomainChanged));
    assert_eq!(classify_event(Facility::Source, Operation::New), None);
    assert_eq!(classify_event(Facility::Source, Operation::Removed), None);
    assert_eq!(classify_event(Facility::Server, Operation::Changed), Some(ChangeClassification::ServerDomainChanged));
    assert_eq!(classify_event(Facility::Server, Operation::New), Some(ChangeClassification::ServerDomainChanged));
    assert_eq!(classify_event(Facility::Other, Operation::Changed), None);
}

#[test]
fn connection_steps() {
    for s in [
        ConnectionStatus::Unconnected,
        ConnectionStatus::Connecting,
        ConnectionStatus::Authorizing,
        ConnectionStatus::Negotiating,
    ] {
        assert!(matches!(connection_step(s), Ok(ConnectStep::Wait)));
    }
    assert!(matches!(connection_step(ConnectionStatus::Ready), Ok(ConnectStep::Ready)));
    assert!(matches!(connection_step(ConnectionStatus::Failed), Err(MonitorError::ConnectionFailed)));
    assert!(matches!(connection_step(ConnectionStatus::Terminated), Err(MonitorError::ConnectionTerminated)));
}

#[test]
fn startup_without_default_fails() {
    let r = ListenerState::new(catalog(&[(1, "mic", false)]), &NO_DEFAULT_SOURCE.to_string());
    assert!(matches!(r, Err(MonitorError::NoDefaultSource)));
}

#[test]
fn startup_state() {
    let st = state_with_default(&[(1, "mic", false), (2, "headset", true)], "headset");
    assert_eq!(st.default_source, Some(2));
    assert_eq!(st.default_source().unwrap().name, "headset");
    assert_eq!(st.default_mute(), Some(true));
}

#[test]
fn transition_notices() {
    assert_eq!(transition_notice(Some(true), Some(false)), Some(Notice::Unmuted));
    assert_eq!(transition_notice(Some(false), Some(true)), Some(Notice::Muted));
    assert_eq!(transition_notice(Some(true), Some(true)), None);
    assert_eq!(transition_notice(Some(false), Some(false)), None);
    assert_eq!(transition_notice(None, None), None);
    assert_eq!(transition_notice(Some(true), None), Some(Notice::NoDefault));
    assert_eq!(transition_notice(None, Some(false)), Some(Notice::Unmuted));
}

#[test]
fn notice_texts() {
    assert_eq!(Notice::Muted.text(), "MUTED");
    assert_eq!(Notice::Unmuted.text(), "UNMUTED");
    assert_eq!(Notice::NoDefault.text(), "No default source");
}

#[test]
fn scenario_a_device_change_mutes_default() {
    let mut st = state_with_default(&[(1, "mic", false)], "mic");
    let notice = st.reconcile(Refresh::Device { sources: catalog(&[(1, "mic", true)]) });
    assert_eq!(st.default_source, Some(1));
    let d = st.sources.get(1).unwrap();
    assert_eq!(d.name, "mic");
    assert!(d.mute);
    assert_eq!(notice.unwrap().text(), "MUTED");
}

#[test]
fn scenario_b_server_change_moves_default() {
    let items = [(1, "mic", false), (2, "headset", true)];
    let mut st = state_with_default(&items, "mic");
    assert_eq!(st.default_source, Some(1));
    let notice = st.reconcile(Refresh::Server { default_name: "headset".to_string(), sources: catalog(&items) });
    assert_eq!(st.default_source, Some(2));
    assert_eq!(notice, Some(Notice::Muted));
    assert_eq!(notice.unwrap().text(), "MUTED");
}

#[test]
fn unchanged_mute_state_gives_no_notice() {
    let mut st = state_with_default(&[(1, "mic", true)], "mic");
    let notice = st.reconcile(Refresh::Device { sources: catalog(&[(1, "mic", true), (2, "new", false)]) });
    assert_eq!(notice, None);
}

#[test]
fn unmute_gives_one_unmuted_notice() {
    let mut st = state_with_default(&[(1, "mic", true)], "mic");
    let notice = st.reconcile(Refresh::Device { sources: catalog(&[(1, "mic", false)]) });
    assert_eq!(notice, Some(Notice::Unmuted));
    assert_eq!(notice.unwrap().text(), "UNMUTED");
}

#[test]
fn vanished_default_is_dropped() {
    let mut st = state_with_default(&[(1, "mic", false)], "mic");
    let notice = st.reconcile(Refresh::Device { sources: catalog(&[(2, "headset", false)]) });
    assert_eq!(st.default_source, None);
    assert!(st.default_source().is_none());
    assert_eq!(notice, Some(Notice::NoDefault));
    let again = st.reconcile(Refresh::Device { sources: catalog(&[(1, "mic", false)]) });
    assert_eq!(st.default_source, None);
    assert_eq!(again, None);
}

#[test]
fn server_change_resolves_against_held_catalog() {
    let mut st = state_with_default(&[(1, "mic", false)], "mic");
    let notice = st.reconcile(Refresh::Server {
        default_name: "headset".to_string(),
        sources: catalog(&[(1, "mic", false), (2, "headset", true)]),
    });
    assert_eq!(st.default_source, None);
    assert_eq!(notice, Some(Notice::NoDefault));
}

#[test]
fn handle_server_change_and_refresh() {
    let mut st = state_with_default(&[(1, "mic", false), (2, "headset", true)], "mic");
    st.handle_server_change(&"headset".to_string());
    assert_eq!(st.default_source, Some(2));
    st.refresh_sources(catalog(&[(2, "headset", false)]));
    assert_eq!(st.default_source, Some(2));
    assert_eq!(st.default_mute(), Some(false));
    st.handle_server_change(&"gone".to_string());
    assert_eq!(st.default_source, None);
    assert_eq!(st.default_mute(), None);
}
