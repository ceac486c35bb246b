use overlay_sync::tailer::{process_chunk, ChatEvent, ChatTailer};

#[test]
fn truncation_resets_cursor_and_reads_nothing() {
    let mut t = ChatTailer::new();
    t.begin(100);
    assert_eq!(t.observe(40), None);
    assert_eq!(t.cursor, 40);
}

#[test]
fn empty_file_resets_cursor() {
    let mut t = ChatTailer::new();
    t.begin(0);
    assert_eq!(t.observe(0), None);
    assert_eq!(t.cursor, 0);
}

#[test]
fn already_consumed_is_a_no_op() {
    let mut t = ChatTailer::new();
    t.begin(50);
    assert_eq!(t.observe(50), None);
    assert_eq!(t.cursor, 50);
}

#[test]
fn fresh_bytes_are_read_from_the_cursor() {
    let mut t = ChatTailer::new();
    t.begin(10);
    assert_eq!(t.observe(80), Some(10));
    assert_eq!(t.cursor, 10);
    t.advance(80);
    assert_eq!(t.cursor, 80);
}

#[test]
fn chunk_with_join_and_trade_lines() {
    let text = "4,shrackx(shrack) joined our world. Diablo's minions grow stronger.\n\
                2,From shrack (*shrack): Hi, I'm interested in your Frostburn listed for 2 wss.\n\
                garbage line\n";
    let events = process_chunk(&text.as_bytes().to_vec());
    assert_eq!(events.len(), 3);
    match &events[0] {
        ChatEvent::Whisper(w) => {
            assert!(w.is_join);
            assert_eq!(w.from, "shrack");
        }
        other => panic!("expected a join first, got {:?}", other),
    }
    match &events[1] {
        ChatEvent::Trade(t) => {
            assert_eq!(t.item_name.as_deref(), Some("Frostburn"));
            assert_eq!(t.price.as_deref(), Some("2 wss"));
        }
        other => panic!("expected the trade message second, got {:?}", other),
    }
    match &events[2] {
        ChatEvent::Whisper(w) => {
            assert!(w.is_trade);
            assert_eq!(w.from, "shrack");
        }
        other => panic!("expected the trade whisper third, got {:?}", other),
    }
}

#[test]
fn chunk_without_trailing_newline_still_classifies() {
    let text = "2,From shrack (*shrack): hello";
    let events = process_chunk(&text.as_bytes().to_vec());
    assert_eq!(events.len(), 1);
    match &events[0] {
        ChatEvent::Whisper(w) => assert_eq!(w.message, "hello"),
        other => panic!("expected a whisper, got {:?}", other),
    }
}

#[test]
fn empty_chunk_yields_no_events() {
    let events = process_chunk(&Vec::new());
    assert!(events.is_empty());
}

#[test]
fn invalid_bytes_decode_to_replacement_characters() {
    let mut bytes =
        b"2,From shrack (*shrack): Hi, I'm interested in your Frost".to_vec();
    bytes.push(0xFF);
    bytes.extend_from_slice(b"burn listed for 2 wss.\n");
    let events = process_chunk(&bytes);
    assert_eq!(events.len(), 2);
    match &events[1] {
        ChatEvent::Whisper(w) => {
            assert_eq!(w.item_name.as_deref(), Some("Frost\u{FFFD}burn"));
        }
        other => panic!("expected the whisper, got {:?}", other),
    }
}
