use potatomesh_matrix_bridge::checkpoint::BridgeState;
use potatomesh_matrix_bridge::planner::build_fetch_params;
use potatomesh_matrix_bridge::potatomesh::PotatoMessage;

fn sample_msg(id: u64) -> PotatoMessage {
    msg_at(id, 0)
}

fn msg_at(id: u64, rx_time: u64) -> PotatoMessage {
    PotatoMessage {
        id,
        rx_time,
        rx_iso: "2025-11-27T00:00:00Z".to_string(),
        from_id: "!abcd1234".to_string(),
        to_id: "^all".to_string(),
        channel: 1,
        portnum: Some("TEXT_MESSAGE_APP".to_string()),
        text: "Ping".to_string(),
        rssi: Some(-100),
        hop_limit: Some(1),
        lora_freq: 868,
        modem_preset: "MediumFast".to_string(),
        channel_name: "TEST".to_string(),
        reply_id: None,
        node_id: "!abcd1234".to_string(),
    }
}

fn state(last_message_id: Option<u64>, last_receipt_time: Option<u64>, ids: Vec<u64>) -> BridgeState {
    BridgeState {
        last_message_id,
        last_receipt_time,
        ids_at_last_receipt_time: ids,
    }
}

#[test]
fn bridge_state_initially_forwards_all() {
    let state = BridgeState::default();
    let msg = sample_msg(42);

    assert!(state.should_forward(&msg));
}

#[test]
fn bridge_state_update_is_monotonic() {
    let mut state = state(Some(50), None, vec![]);
    let m = sample_msg(40);

    state.record(&m);
    assert_eq!(state.last_message_id, Some(50));
}

#[test]
fn fetch_params_respects_missing_last_message_id() {
    let state = state(None, Some(123), vec![]);

    let params = build_fetch_params(&state);
    assert_eq!(params.limit, None);
    assert_eq!(params.since, None);
}

#[test]
fn fetch_params_uses_since_when_safe() {
    let state = state(Some(1), Some(123), vec![]);

    let params = build_fetch_params(&state);
    assert_eq!(params.limit, None);
    assert_eq!(params.since, Some(123));
}

#[test]
fn fetch_params_defaults_to_small_window() {
    let state = state(Some(1), None, vec![]);

    let params = build_fetch_params(&state);
    assert_eq!(params.limit, Some(10));
    assert_eq!(params.since, None);
}

#[test]
fn fresh_checkpoint_plans_full_sync() {
    let params = build_fetch_params(&BridgeState::new());
    assert_eq!(params.limit, None);
    assert_eq!(params.since, None);
}

#[test]
fn record_sequence_never_moves_backward() {
    let mut s = BridgeState::new();
    let msgs = [msg_at(30, 100), msg_at(10, 100), msg_at(20, 50), msg_at(5, 200), msg_at(7, 150)];
    let mut prev_id = None;
    let mut prev_time = None;
    for m in &msgs {
        s.record(m);
        assert!(s.last_message_id >= prev_id);
        assert!(s.last_receipt_time >= prev_time);
        prev_id = s.last_message_id;
        prev_time = s.last_receipt_time;
    }
    assert_eq!(s.last_message_id, Some(30));
    assert_eq!(s.last_receipt_time, Some(200));
    assert_eq!(s.ids_at_last_receipt_time, vec![5]);
}

#[test]
fn recorded_message_is_not_forwarded_again() {
    let mut s = BridgeState::new();
    let m = msg_at(11, 500);
    assert!(s.should_forward(&m));
    s.record(&m);
    assert!(!s.should_forward(&m));
    s.record(&msg_at(12, 500));
    assert!(!s.should_forward(&m));
    s.record(&msg_at(3, 600));
    assert!(!s.should_forward(&m));
}

#[test]
fn empty_checkpoint_admits_any_message() {
    let s = BridgeState::new();
    assert!(s.should_forward(&msg_at(0, 0)));
    assert!(s.should_forward(&msg_at(u64::MAX, u64::MAX)));
    assert!(s.should_forward(&msg_at(7, 3)));
}

#[test]
fn legacy_checkpoint_compares_ids() {
    let s = state(Some(50), None, vec![]);
    assert!(s.should_forward(&msg_at(51, 0)));
    assert!(!s.should_forward(&msg_at(50, 999)));
    assert!(!s.should_forward(&msg_at(49, 999)));
}

#[test]
fn equal_receipt_times_break_ties_by_id() {
    let mut s = state(Some(5), Some(900), vec![5]);
    let first = msg_at(40, 1000);
    let second = msg_at(30, 1000);
    let earlier = msg_at(99, 999);

    assert!(s.should_forward(&first));
    s.record(&first);
    assert!(s.should_forward(&second));
    s.record(&second);
    assert_eq!(s.ids_at_last_receipt_time, vec![40, 30]);

    assert!(!s.should_forward(&first));
    assert!(!s.should_forward(&second));
    assert!(!s.should_forward(&earlier));
}

#[test]
fn duplicate_at_checkpoint_time_is_rejected() {
    let s = state(Some(20), Some(20), vec![10, 9]);
    assert!(!s.should_forward(&msg_at(10, 20)));
    assert!(s.should_forward(&msg_at(11, 21)));
    assert!(s.should_forward(&msg_at(11, 20)));
    assert!(!s.should_forward(&msg_at(11, 19)));
}

#[test]
fn record_at_older_time_only_raises_id() {
    let mut s = state(Some(20), Some(20), vec![10, 9]);
    s.record(&msg_at(25, 15));
    assert_eq!(s.last_message_id, Some(25));
    assert_eq!(s.last_receipt_time, Some(20));
    assert_eq!(s.ids_at_last_receipt_time, vec![10, 9]);
}

#[test]
fn restore_drops_ids_without_receipt_time() {
    let s = BridgeState::restore(Some(8), None, vec![1, 2]);
    assert_eq!(s.last_message_id, Some(8));
    assert_eq!(s.last_receipt_time, None);
    assert!(s.ids_at_last_receipt_time.is_empty());
}

#[test]
fn restore_removes_repeated_ids() {
    let s = BridgeState::restore(Some(8), Some(4), vec![3, 1, 3, 2, 1]);
    assert_eq!(s.last_receipt_time, Some(4));
    assert_eq!(s.ids_at_last_receipt_time, vec![3, 1, 2]);
}
