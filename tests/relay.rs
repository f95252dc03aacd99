use potatomesh_matrix_bridge::checkpoint::BridgeState;
use potatomesh_matrix_bridge::formatter::{format_message, message_prefix, preset_abbreviation};
use potatomesh_matrix_bridge::forwarding::{next_step, order_messages, plan_relay, Step};
use potatomesh_matrix_bridge::potatomesh::{PotatoMessage, PotatoNode};
use potatomesh_matrix_bridge::puppet::{display_name, localpart_from_node_id, node_hex_id, user_id};
use potatomesh_matrix_bridge::text::trim;

fn msg(id: u64, rx_time: u64, portnum: Option<&str>) -> PotatoMessage {
    PotatoMessage {
        id,
        rx_time,
        rx_iso: "2025-11-27T00:00:00Z".to_string(),
        from_id: "!abcd1234".to_string(),
        to_id: "^all".to_string(),
        channel: 1,
        portnum: portnum.map(|p| p.to_string()),
        text: "Hello <&>".to_string(),
        rssi: None,
        hop_limit: None,
        lora_freq: 868,
        modem_preset: "LongFast".to_string(),
        channel_name: "CHANNEL".to_string(),
        reply_id: None,
        node_id: "!abcd1234".to_string(),
    }
}

fn node(long: &str, short: Option<&str>) -> PotatoNode {
    PotatoNode {
        node_id: "!abcd1234".to_string(),
        short_name: short.map(|s| s.to_string()),
        long_name: long.to_string(),
        role: None,
        hw_model: None,
        last_heard: None,
        first_heard: None,
    }
}

#[test]
fn node_hex_id_is_stripped_correctly() {
    let hex = node_hex_id("!deadbeef");
    assert_eq!(hex, "deadbeef");

    let hex2 = node_hex_id("cafebabe");
    assert_eq!(hex2, "cafebabe");
}

#[test]
fn node_hex_id_strips_repeated_sigils_only_at_start() {
    assert_eq!(node_hex_id("!!ab!c"), "ab!c");
    assert_eq!(node_hex_id(""), "");
}

#[test]
fn localpart_and_user_id() {
    let localpart = localpart_from_node_id("!abcd1234");
    assert_eq!(localpart, "potato_abcd1234");
    assert_eq!(user_id(&localpart, "example.org"), "@potato_abcd1234:example.org");
}

#[test]
fn format_renders_plain_and_rich() {
    let (plain, rich) = format_message("[868][LF]", "Hello <&>");
    assert_eq!(plain, "`[868][LF]` Hello <&>");
    assert_eq!(rich, "<code>[868][LF]</code> Hello &lt;&amp;&gt;");
}

#[test]
fn format_escapes_quotes_in_prefix_and_text() {
    let (plain, rich) = format_message("[a&b]", "say \"hi\" it's");
    assert_eq!(plain, "`[a&b]` say \"hi\" it's");
    assert_eq!(rich, "<code>[a&amp;b]</code> say &quot;hi&quot; it&#39;s");
}

#[test]
fn preset_abbreviations() {
    assert_eq!(preset_abbreviation("LongFast"), "LF");
    assert_eq!(preset_abbreviation("MediumSlow"), "MS");
    assert_eq!(preset_abbreviation("custom"), "cu");
    assert_eq!(preset_abbreviation("x"), "x");
    assert_eq!(preset_abbreviation(""), "");
}

#[test]
fn prefix_from_frequency_preset_and_channel() {
    assert_eq!(message_prefix(868, "LongFast", "CHANNEL"), "[868][LF][CHANNEL]");
    assert_eq!(message_prefix(0, "ShortTurbo", "A"), "[0][ST][A]");
    assert_eq!(message_prefix(4294967295, "lf", ""), "[4294967295][lf][]");
}

#[test]
fn display_name_with_distinct_short_name() {
    assert_eq!(display_name(&node("Test Node", Some("TN"))), "Test Node (TN)");
}

#[test]
fn display_name_with_same_or_blank_short_name() {
    assert_eq!(display_name(&node("Test Node", Some("Test Node"))), "Test Node");
    assert_eq!(display_name(&node("Test Node", Some("   "))), "Test Node");
    assert_eq!(display_name(&node("Test Node", Some(""))), "Test Node");
    assert_eq!(display_name(&node("Test Node", None)), "Test Node");
}

#[test]
fn display_name_trims_short_name() {
    assert_eq!(display_name(&node("Test Node", Some("  TN\t"))), "Test Node (TN)");
    assert_eq!(display_name(&node("Test Node", Some(" Test Node "))), "Test Node");
}

#[test]
fn trim_removes_unicode_whitespace() {
    assert_eq!(trim("\u{3000} a b \n"), "a b");
    assert_eq!(trim("\t\r\n "), "");
    assert_eq!(trim("x"), "x");
}

#[test]
fn steps_follow_checkpoint_and_port() {
    let s = BridgeState::restore(Some(10), Some(100), vec![10]);
    assert_eq!(next_step(&s, &msg(10, 100, Some("TEXT_MESSAGE_APP"))), Step::Skip);
    assert_eq!(next_step(&s, &msg(11, 99, None)), Step::Skip);
    assert_eq!(next_step(&s, &msg(11, 100, Some("POSITION_APP"))), Step::RecordOnly);
    assert_eq!(next_step(&s, &msg(11, 100, Some("TEXT_MESSAGE_APP"))), Step::Relay);
    assert_eq!(next_step(&s, &msg(12, 101, None)), Step::Relay);
}

#[test]
fn settle_advances_only_on_record_or_successful_relay() {
    let m = msg(11, 200, None);
    let mut s = BridgeState::restore(Some(10), Some(100), vec![10]);
    assert!(!s.settle(&m, Step::Relay, false));
    assert_eq!(s.last_receipt_time, Some(100));
    assert!(!s.settle(&m, Step::Skip, true));
    assert_eq!(s.last_message_id, Some(10));
    assert!(s.settle(&m, Step::Relay, true));
    assert_eq!(s.last_receipt_time, Some(200));
    assert_eq!(s.ids_at_last_receipt_time, vec![11]);

    let p = msg(12, 300, Some("POSITION_APP"));
    assert!(s.settle(&p, Step::RecordOnly, false));
    assert_eq!(s.last_message_id, Some(12));
    assert_eq!(s.last_receipt_time, Some(300));
}

#[test]
fn batches_are_ordered_by_receipt_time() {
    let ordered = order_messages(vec![msg(1, 30, None), msg(2, 10, None), msg(3, 20, None), msg(4, 10, None)]);
    let ids: Vec<u64> = ordered.iter().map(|m| m.id).collect();
    assert_eq!(ids, vec![2, 4, 3, 1]);
}

#[test]
fn relay_plan_for_message() {
    let plan = plan_relay(&msg(100, 5, None), &node("Test Node", Some("TN")), "example.org");
    assert_eq!(plan.localpart, "potato_abcd1234");
    assert_eq!(plan.user_id, "@potato_abcd1234:example.org");
    assert_eq!(plan.display_name, "Test Node (TN)");
    assert_eq!(plan.plain, "`[868][LF][CHANNEL]` Hello <&>");
    assert_eq!(plan.rich, "<code>[868][LF][CHANNEL]</code> Hello &lt;&amp;&gt;");
}
