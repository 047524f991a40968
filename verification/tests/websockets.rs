use curl::easy::websockets::{
    WebsocketFrameMetadata, WebsocketFrameType, WebsocketOptions, CURLWS_BINARY, CURLWS_CLOSE,
    CURLWS_CONT, CURLWS_PING, CURLWS_PONG, CURLWS_RAW_MODE, CURLWS_TEXT,
};

fn meta(flags: i32) -> WebsocketFrameMetadata {
    WebsocketFrameMetadata::from_raw(flags, 0, 0, 0)
}

#[test]
fn flag_bits_match_websockets_header() {
    assert_eq!(CURLWS_TEXT, 1 << 0);
    assert_eq!(CURLWS_BINARY, 1 << 1);
    assert_eq!(CURLWS_CONT, 1 << 2);
    assert_eq!(CURLWS_CLOSE, 1 << 3);
    assert_eq!(CURLWS_PING, 1 << 4);
    assert_eq!(CURLWS_PONG, 1 << 6);
    assert_eq!(CURLWS_RAW_MODE, 1 << 0);
}

#[test]
fn zero_flags_is_raw_frame() {
    assert_eq!(meta(0).frame_type(), WebsocketFrameType::Raw);
    assert!(!meta(0).is_cont());
}

#[test]
fn single_bit_decodes_to_its_type() {
    assert_eq!(meta(1).frame_type(), WebsocketFrameType::Text);
    assert_eq!(meta(2).frame_type(), WebsocketFrameType::Binary);
    assert_eq!(meta(16).frame_type(), WebsocketFrameType::Ping);
    assert_eq!(meta(64).frame_type(), WebsocketFrameType::Pong);
    assert_eq!(meta(8).frame_type(), WebsocketFrameType::Close);
}

#[test]
fn first_set_type_bit_wins() {
    // text before binary before ping before pong before close
    assert_eq!(meta(1 | 2 | 8).frame_type(), WebsocketFrameType::Text);
    assert_eq!(meta(2 | 16).frame_type(), WebsocketFrameType::Binary);
    assert_eq!(meta(16 | 64 | 8).frame_type(), WebsocketFrameType::Ping);
    assert_eq!(meta(64 | 8).frame_type(), WebsocketFrameType::Pong);
    assert_eq!(meta(-1).frame_type(), WebsocketFrameType::Text);
}

#[test]
fn offset_bit_is_ignored_by_frame_type() {
    // CURLWS_OFFSET (1 << 5) carries no type
    assert_eq!(meta(32 | 2).frame_type(), WebsocketFrameType::Binary);
}

#[test]
fn continuation_fragment_keeps_type() {
    let m = meta((CURLWS_TEXT | CURLWS_CONT) as i32);
    assert!(m.is_cont());
    assert!(m.is_text());
    assert_eq!(m.frame_type(), WebsocketFrameType::Text);
    let m = meta((CURLWS_BINARY | CURLWS_CONT) as i32);
    assert!(m.is_cont());
    assert!(m.is_binary());
    assert!(!meta(CURLWS_BINARY as i32).is_cont());
}

#[test]
fn type_predicates_agree_with_frame_type() {
    let close = meta(8);
    assert!(close.is_close());
    assert!(!close.is_text() && !close.is_binary() && !close.is_ping() && !close.is_pong());
    let ping = meta(16);
    assert!(ping.is_ping() && !ping.is_pong() && !ping.is_close());
    let pong = meta(64);
    assert!(pong.is_pong() && !pong.is_ping());
    let raw = meta(0);
    assert!(!raw.is_text() && !raw.is_binary() && !raw.is_ping() && !raw.is_pong() && !raw.is_close());
}

#[test]
fn metadata_getters_return_frame_fields() {
    let m = WebsocketFrameMetadata::from_raw(1, 1024, 77, 256);
    assert_eq!(m.offset(), 1024);
    assert_eq!(m.bytes_left(), 77);
    assert_eq!(m.length(), 256);
    let c = m.clone();
    assert_eq!(c.length(), 256);
    assert_eq!(c.frame_type(), WebsocketFrameType::Text);
}

#[test]
fn to_flag_values() {
    assert_eq!(WebsocketFrameType::Raw.to_flag(), 0);
    assert_eq!(WebsocketFrameType::Text.to_flag(), CURLWS_TEXT);
    assert_eq!(WebsocketFrameType::Binary.to_flag(), CURLWS_BINARY);
    assert_eq!(WebsocketFrameType::Ping.to_flag(), CURLWS_PING);
    assert_eq!(WebsocketFrameType::Pong.to_flag(), CURLWS_PONG);
    assert_eq!(WebsocketFrameType::Close.to_flag(), CURLWS_CLOSE);
}

#[test]
fn to_flag_round_trips_through_frame_type() {
    for t in [
        WebsocketFrameType::Raw,
        WebsocketFrameType::Text,
        WebsocketFrameType::Binary,
        WebsocketFrameType::Ping,
        WebsocketFrameType::Pong,
        WebsocketFrameType::Close,
    ] {
        assert_eq!(meta(t.to_flag() as i32).frame_type(), t);
    }
}

#[test]
fn new_options_are_empty() {
    assert_eq!(WebsocketOptions::new().to_bitmask(), 0);
    assert_eq!(WebsocketOptions::default(), WebsocketOptions::new());
}

#[test]
fn raw_mode_sets_raw_mode_bit() {
    let o = WebsocketOptions::new().raw_mode();
    assert_eq!(o.to_bitmask(), CURLWS_RAW_MODE);
    assert_ne!(o, WebsocketOptions::new());
}

#[test]
fn raw_mode_twice_is_raw_mode_once() {
    let once = WebsocketOptions::new().raw_mode();
    let twice = once.raw_mode();
    assert_eq!(once, twice);
    assert_eq!(twice.to_bitmask(), 1);
}

#[test]
fn known_frame_types_are_recognised() {
    assert!(meta(0).has_frame_type());
    assert!(meta(1).has_frame_type());
    assert!(meta(8 | 4).has_frame_type());
    assert!(meta(-1).has_frame_type());
    // a continuation bit or the offset bit alone carries no type
    assert!(!meta(4).has_frame_type());
    assert!(!meta(32).has_frame_type());
    assert!(!meta(4 | 32 | 128).has_frame_type());
}
