use stsbr::block::{BlockError, BlockState, MouseButton, Position, Dimensions};
use stsbr::i3bar::{
    bar_block_json, bar_blocks_to_json, button_code, button_for_code, click_payload, click_target,
    convert_blocks_to_bar_blocks, decode_click, encode_click, get_header_json, route_click,
    samples_to_json, BarBlock, BarStream, ClickError, RawClick,
};

fn ok(text: &str) -> Result<BlockState, BlockError> {
    Ok(BlockState::new(text.to_string()))
}

fn failed() -> Result<BlockState, BlockError> {
    Err(BlockError::new("probe failed".to_string()))
}

fn raw(instance: &str, button: u32) -> RawClick {
    RawClick {
        instance: instance.to_string(),
        button,
        x: 1200,
        y: 5,
        relative_x: 30,
        relative_y: 4,
        width: 90,
        height: 20,
    }
}

#[test]
fn header_with_and_without_clicks() {
    assert_eq!(get_header_json(true), "{\"version\":1,\"click_events\":true}");
    assert_eq!(get_header_json(false), "{\"version\":1,\"click_events\":false}");
}

#[test]
fn blocks_keep_slot_order_and_skip_failures() {
    let samples = vec![ok("a"), failed(), ok("c")];
    let blocks = convert_blocks_to_bar_blocks(&samples);
    assert_eq!(blocks.len(), 2);
    assert_eq!(blocks[0].full_text, "a");
    assert_eq!(blocks[0].instance, "0");
    assert_eq!(blocks[1].full_text, "c");
    assert_eq!(blocks[1].instance, "2");
    assert_eq!(blocks[1].markup, "pango");
}

#[test]
fn tick_line_exact() {
    let samples = vec![ok("a"), failed(), ok("c")];
    assert_eq!(
        samples_to_json(&samples),
        "[{\"full_text\":\"a\",\"markup\":\"pango\",\"instance\":\"0\"},{\"full_text\":\"c\",\"markup\":\"pango\",\"instance\":\"2\"}]"
    );
}

#[test]
fn empty_tick_is_empty_array() {
    let samples: Vec<Result<BlockState, BlockError>> = vec![failed(), failed()];
    assert_eq!(samples_to_json(&samples), "[]");
    assert_eq!(bar_blocks_to_json(&Vec::new()), "[]");
}

#[test]
fn failing_source_absent_every_tick() {
    for _ in 0..3 {
        let line = samples_to_json(&vec![failed(), ok("x")]);
        assert_eq!(line, "[{\"full_text\":\"x\",\"markup\":\"pango\",\"instance\":\"1\"}]");
        assert!(!line.contains("\"instance\":\"0\""));
    }
}

#[test]
fn unchanged_samples_give_equal_lines() {
    let a = samples_to_json(&vec![ok("one"), ok("two")]);
    let b = samples_to_json(&vec![ok("one"), ok("two")]);
    assert_eq!(a, b);
}

#[test]
fn block_text_is_json_escaped() {
    let block = BarBlock {
        full_text: "say \"hi\"\\\n".to_string(),
        markup: "pango".to_string(),
        instance: "3".to_string(),
    };
    assert_eq!(
        bar_block_json(&block),
        "{\"full_text\":\"say \\\"hi\\\"\\\\\\n\",\"markup\":\"pango\",\"instance\":\"3\"}"
    );
}

#[test]
fn slot_numbers_of_two_digits() {
    let mut samples = Vec::new();
    for i in 0..12 {
        samples.push(if i == 11 { ok("last") } else { failed() });
    }
    assert_eq!(
        samples_to_json(&samples),
        "[{\"full_text\":\"last\",\"markup\":\"pango\",\"instance\":\"11\"}]"
    );
}

#[test]
fn stream_header_once_then_ticks() {
    let mut stream = BarStream::new(true);
    let first = stream.start();
    assert_eq!(first, "{\"version\":1,\"click_events\":true}\n[\n");
    assert_eq!(stream.start(), "");
    assert_eq!(stream.tick("[]"), "[],\n");
    assert_eq!(stream.tick("[1]"), "[1],\n");
}

#[test]
fn stream_tick_before_start_writes_header() {
    let mut stream = BarStream::new(false);
    assert_eq!(stream.tick("[]"), "{\"version\":1,\"click_events\":false}\n[\n[],\n");
    assert_eq!(stream.tick("[]"), "[],\n");
    assert_eq!(stream.start(), "");
}

#[test]
fn button_numbers() {
    assert_eq!(button_for_code(1), MouseButton::Left);
    assert_eq!(button_for_code(2), MouseButton::Middle);
    assert_eq!(button_for_code(3), MouseButton::Right);
    assert_eq!(button_for_code(4), MouseButton::ScrollUp);
    assert_eq!(button_for_code(5), MouseButton::ScrollDown);
    assert_eq!(button_for_code(0), MouseButton::Left);
    for code in 1..=5 {
        assert_eq!(button_code(button_for_code(code)), code);
    }
}

#[test]
fn decode_all_fields() {
    let ev = decode_click(&raw("2", 4)).unwrap();
    assert_eq!(ev.instance(), 2);
    assert_eq!(ev.button(), MouseButton::ScrollUp);
    assert_eq!(ev.position(), Position(30, 4));
    assert_eq!(ev.absolute_position(), Position(1200, 5));
    assert_eq!(ev.block_dimensions(), Dimensions(90, 20));
}

#[test]
fn click_round_trip() {
    for code in 1..=5 {
        let host = raw("7", code);
        let back = encode_click(&decode_click(&host).unwrap());
        assert_eq!(back.instance, host.instance);
        assert_eq!(back.button, host.button);
        assert_eq!((back.x, back.y), (host.x, host.y));
        assert_eq!((back.relative_x, back.relative_y), (host.relative_x, host.relative_y));
        assert_eq!((back.width, back.height), (host.width, host.height));
    }
}

#[test]
fn malformed_instance_is_rejected() {
    assert_eq!(decode_click(&raw("x", 1)).unwrap_err(), ClickError::InvalidInstance);
    assert_eq!(decode_click(&raw("", 1)).unwrap_err(), ClickError::InvalidInstance);
    assert_eq!(decode_click(&raw("-1", 1)).unwrap_err(), ClickError::InvalidInstance);
    assert_eq!(decode_click(&raw("18446744073709551616", 1)).unwrap_err(), ClickError::InvalidInstance);
}

#[test]
fn unknown_button_is_left_on_slot_zero() {
    let routed = route_click(3, &raw("0", 99)).unwrap().unwrap();
    assert_eq!(routed.0, 0);
    assert_eq!(routed.1.button(), MouseButton::Left);
}

#[test]
fn click_out_of_range_goes_nowhere() {
    assert!(route_click(2, &raw("2", 1)).unwrap().is_none());
    let ev = decode_click(&raw("5", 1)).unwrap();
    assert_eq!(click_target(5, &ev), None);
    assert_eq!(click_target(6, &ev), Some(5));
}

#[test]
fn click_in_range_goes_to_its_slot() {
    let routed = route_click(3, &raw("+1", 5)).unwrap().unwrap();
    assert_eq!(routed.0, 1);
    assert_eq!(routed.1.button(), MouseButton::ScrollDown);
}

#[test]
fn opening_line_is_ignored() {
    assert_eq!(click_payload("[\n"), None);
    assert_eq!(click_payload("[\r\n"), None);
    assert_eq!(click_payload("[\n\n"), Some("[\n"));
}

#[test]
fn commas_trimmed_from_click_lines() {
    assert_eq!(click_payload(",{\"a\":1},"), Some("{\"a\":1}"));
    assert_eq!(click_payload("{\"a\":1}"), Some("{\"a\":1}"));
    assert_eq!(click_payload(",,,"), Some(""));
    assert_eq!(click_payload("{\"a\":1},\n"), Some("{\"a\":1}"));
    assert_eq!(click_payload(",{\"a\":1}\n"), Some("{\"a\":1}"));
    assert_eq!(click_payload("{\"a\":1},\r\n"), Some("{\"a\":1}"));
    assert_eq!(click_payload("{}\n"), Some("{}"));
}

#[test]
fn known_button_numbers() {
    assert!(stsbr::i3bar::is_known_button_code(1));
    assert!(stsbr::i3bar::is_known_button_code(5));
    assert!(!stsbr::i3bar::is_known_button_code(0));
    assert!(!stsbr::i3bar::is_known_button_code(99));
}

#[test]
fn control_characters_escaped_in_tick_line() {
    let line = samples_to_json(&vec![ok("a\nb\tc\u{1}")]);
    assert_eq!(
        line,
        "[{\"full_text\":\"a\\nb\\tc\\u0001\",\"markup\":\"pango\",\"instance\":\"0\"}]"
    );
    assert!(!line.contains('\n'));
}
