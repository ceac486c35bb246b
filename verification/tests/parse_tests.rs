use overlay_sync::parse::{parse_trade_message, parse_whisper};

#[test]
fn incoming_trade_whisper_full_line() {
    let line = "2,From shrack (*shrack): Hi, I'm interested in your Frostburn listed for 2 wss.";
    let w = parse_whisper(line).expect("whisper expected");
    assert!(w.is_trade);
    assert_eq!(w.from, "shrack");
    assert_eq!(w.message, "Hi, I'm interested in your Frostburn listed for 2 wss.");
    assert_eq!(w.item_name.as_deref(), Some("Frostburn"));
    assert!(!w.is_join);
    assert!(w.is_incoming);

    let t = parse_trade_message(line).expect("trade message expected");
    assert!(t.is_incoming);
    assert_eq!(t.player_name, "shrack");
    assert_eq!(t.account_name.as_deref(), Some("shrack"));
    assert_eq!(t.character_name.as_deref(), Some("shrack"));
    assert_eq!(t.item_name.as_deref(), Some("Frostburn"));
    assert_eq!(t.price.as_deref(), Some("2 wss"));
}

#[test]
fn join_line_with_account() {
    let line = "4,shrackx(shrack) joined our world. Diablo's minions grow stronger.";
    let w = parse_whisper(line).expect("join expected");
    assert!(w.is_join);
    assert_eq!(w.from, "shrack");
    assert!(!w.is_trade);
    assert!(w.is_incoming);
    assert_eq!(w.item_name, None);
    assert_eq!(
        w.message,
        "shrackx(shrack) joined our world. Diablo's minions grow stronger."
    );
    assert!(parse_trade_message(line).is_none());
}

#[test]
fn join_line_without_parenthesis() {
    let w = parse_whisper("4,solo joined our world.").expect("join expected");
    assert!(w.is_join);
    assert_eq!(w.from, "solo");
}

#[test]
fn join_line_star_account_stripped() {
    let w = parse_whisper("4,toon(*acct) joined our world.").expect("join expected");
    assert_eq!(w.from, "acct");
}

#[test]
fn other_type_four_lines_yield_nothing() {
    assert!(parse_whisper("4,somebody left our world.").is_none());
}

#[test]
fn outgoing_trade_whisper_price_without_period() {
    let line = "2,Sent to Shrackb (*shrack): Hi, I'm interested in your Frostburn listed for 2 wss";
    let w = parse_whisper(line).expect("whisper expected");
    assert!(!w.is_incoming);
    assert!(w.is_trade);
    assert_eq!(w.from, "shrack");

    let t = parse_trade_message(line).expect("trade expected");
    assert!(!t.is_incoming);
    assert_eq!(t.character_name.as_deref(), Some("Shrackb"));
    assert_eq!(t.account_name.as_deref(), Some("shrack"));
    assert_eq!(t.player_name, "shrack");
    assert_eq!(t.price.as_deref(), Some("2 wss"));
}

#[test]
fn plain_whisper_is_not_trade() {
    let w = parse_whisper("2,From shrack (*shrack): hello there").expect("whisper expected");
    assert!(!w.is_trade);
    assert_eq!(w.item_name, None);
    assert_eq!(w.message, "hello there");
    assert!(parse_trade_message("2,From shrack (*shrack): hello there").is_none());
}

#[test]
fn sender_without_parenthesis_takes_first_token() {
    let w = parse_whisper("2,From shrack smith: hello").expect("whisper expected");
    assert_eq!(w.from, "shrack");
}

#[test]
fn sender_token_ends_at_any_whitespace() {
    let w = parse_whisper("2,From shrack\tsmith: hello").expect("whisper expected");
    assert_eq!(w.from, "shrack");
    let t = parse_trade_message(
        "2,From shrack\tsmith: Hi, I'm interested in your Frostburn listed for 2 wss.",
    )
    .expect("trade expected");
    assert_eq!(t.player_name, "shrack");
    assert_eq!(t.character_name.as_deref(), Some("shrack"));
}

#[test]
fn trade_phrase_requires_the_trailing_space() {
    let w = parse_whisper("2,From shrack (*shrack): Hi, I'm interested in yourself")
        .expect("whisper expected");
    assert!(!w.is_trade);
    assert_eq!(w.item_name, None);
    assert!(
        parse_trade_message("2,From shrack (*shrack): Hi, I'm interested in yourself").is_none()
    );
    let bare = "2,From shrack (*shrack): Hi, I'm interested in your";
    assert!(!parse_whisper(bare).expect("whisper expected").is_trade);
    assert!(parse_trade_message(bare).is_none());
}

#[test]
fn malformed_parenthesis_falls_back_to_first_token() {
    let w = parse_whisper("2,From shrack (*shrack: hello").expect("whisper expected");
    assert_eq!(w.from, "shrack");
}

#[test]
fn friend_notices_are_discarded() {
    assert!(
        parse_whisper("2,From system: Your friend BobJr has entered Project Diablo 2.").is_none()
    );
    assert!(
        parse_whisper("2,From system: Your friend BobJr has left Project Diablo 2.").is_none()
    );
}

#[test]
fn line_without_colon_yields_nothing() {
    assert!(parse_whisper("2,From shrack no colon here").is_none());
}

#[test]
fn line_without_from_or_sent_to_yields_nothing() {
    assert!(parse_whisper("2,hello world").is_none());
}

#[test]
fn unrelated_prefix_yields_nothing() {
    assert!(parse_whisper("3,From shrack (*shrack): hi").is_none());
    assert!(parse_trade_message("3,From shrack: Hi, I'm interested in your X listed for 1 hr").is_none());
}

#[test]
fn trade_without_account_name() {
    let line = "2,From shrack: Hi, I'm interested in your Harlequin Crest listed for 10 hr.";
    let t = parse_trade_message(line).expect("trade expected");
    assert_eq!(t.player_name, "shrack");
    assert_eq!(t.account_name, None);
    assert_eq!(t.character_name.as_deref(), Some("shrack"));
    assert_eq!(t.item_name.as_deref(), Some("Harlequin Crest"));
    assert_eq!(t.price.as_deref(), Some("10 hr"));
}

#[test]
fn trade_item_name_with_spaces_is_kept_whole() {
    let line = "2,From a (*b): Hi, I'm interested in your The Grandfather listed for 3 ber.";
    let w = parse_whisper(line).expect("whisper expected");
    assert_eq!(w.item_name.as_deref(), Some("The Grandfather"));
}

#[test]
fn trailing_newline_is_trimmed_from_whisper_message() {
    let w = parse_whisper("2,From shrack (*shrack): hello\n").expect("whisper expected");
    assert_eq!(w.message, "hello");
}
