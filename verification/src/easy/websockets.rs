//! Types for Websocket support.
use vstd::prelude::*;

verus! {

/// Flag bit 0: a frame holding text data (`CURLWS_TEXT` in `curl/websockets.h`).
pub const CURLWS_TEXT: u32 = 1;

/// Flag bit 1: a frame holding binary data (`CURLWS_BINARY`).
pub const CURLWS_BINARY: u32 = 2;

/// Flag bit 2: a fragment that is not the last one of its message (`CURLWS_CONT`).
pub const CURLWS_CONT: u32 = 4;

/// Flag bit 3: a close frame (`CURLWS_CLOSE`).
pub const CURLWS_CLOSE: u32 = 8;

/// Flag bit 4: a ping frame (`CURLWS_PING`).
pub const CURLWS_PING: u32 = 16;

/// Flag bit 6: a pong frame (`CURLWS_PONG`).
pub const CURLWS_PONG: u32 = 64;

/// Bit 0 of the `CURLOPT_WS_OPTIONS` bitmask: raw mode (`CURLWS_RAW_MODE`).
pub const CURLWS_RAW_MODE: u64 = 1;

/// Frame messsage type.
#[derive(Debug, Clone, Copy, PartialEq, Eq, Structural)]
#[non_exhaustive]
pub enum WebsocketFrameType {
    /// Only used when [`WebsocketOptions::raw_mode()`] when sending a frame.
    Raw,
    /// This is a message with text data. Note that this makes a difference to
    /// WebSocket but libcurl itself does not make any verification of the
    /// content or precautions that you actually receive valid UTF-8 content.
    Text,
    /// This is a message with binary data.
    Binary,
    /// This is a ping message. It may contain up to 125 bytes of payload text.
    /// libcurl does not verify that the payload is valid UTF-8.
    ///
    /// Upon receiving a ping message, libcurl automatically responds with a
    /// pong message unless the [`WebsocketOptions::raw_mode()`] option
    /// is set.
    Ping,
    /// This is a pong message. It may contain up to 125 bytes of payload text.
    /// libcurl does not verify that the payload is valid UTF-8.
    Pong,
    /// This is a close message. No more data follows.
    ///
    /// It may contain a 2-byte unsigned integer in network byte order that
    /// indicates the close reason and may additionally contain up to 123 bytes
    /// of further textual payload for a total of at most 125 bytes. libcurl
    /// does not verify that the textual description is valid UTF-8.
    Close,
}

/// The flag bits that announce a frame of type `t` when it is sent.
pub open spec fn flag_of(t: WebsocketFrameType) -> u32 {
    match t {
        WebsocketFrameType::Raw => 0,
        WebsocketFrameType::Text => CURLWS_TEXT,
        WebsocketFrameType::Binary => CURLWS_BINARY,
        WebsocketFrameType::Ping => CURLWS_PING,
        WebsocketFrameType::Pong => CURLWS_PONG,
        WebsocketFrameType::Close => CURLWS_CLOSE,
    }
}

impl WebsocketFrameType {
    /// The flag bits that announce a frame of this type to libcurl.
    pub fn to_flag(self) -> (r: u32)
        ensures
            r == flag_of(self),
    {
        match self {
            WebsocketFrameType::Raw => 0,
            WebsocketFrameType::Text => CURLWS_TEXT,
            WebsocketFrameType::Binary => CURLWS_BINARY,
            WebsocketFrameType::Ping => CURLWS_PING,
            WebsocketFrameType::Pong => CURLWS_PONG,
            WebsocketFrameType::Close => CURLWS_CLOSE,
        }
    }
}


/// The type that a received frame carries, decoded from its flag bits:
/// no bit at all is a raw frame, else the first of text, binary, ping, pong
/// and close whose bit is set; `None` where none of these bits is set.
pub open spec fn frame_type_of_flags(flags: i32) -> Option<WebsocketFrameType> {
    let bits = flags as u32;
    if flags == 0 {
        Some(WebsocketFrameType::Raw)
    } else if bits & CURLWS_TEXT != 0 {
        Some(WebsocketFrameType::Text)
    } else if bits & CURLWS_BINARY != 0 {
        Some(WebsocketFrameType::Binary)
    } else if bits & CURLWS_PING != 0 {
        Some(WebsocketFrameType::Ping)
    } else if bits & CURLWS_PONG != 0 {
        Some(WebsocketFrameType::Pong)
    } else if bits & CURLWS_CLOSE != 0 {
        Some(WebsocketFrameType::Close)
    } else {
        None
    }
}

/// The order in which the flag bits of a received frame are tried.
pub open spec fn frame_type_mask_mapping_spec() -> Seq<(u32, WebsocketFrameType)> {
    seq![
        (CURLWS_TEXT, WebsocketFrameType::Text),
        (CURLWS_BINARY, WebsocketFrameType::Binary),
        (CURLWS_PING, WebsocketFrameType::Ping),
        (CURLWS_PONG, WebsocketFrameType::Pong),
        (CURLWS_CLOSE, WebsocketFrameType::Close),
    ]
}

fn frame_type_mask_mapping() -> (r: [(u32, WebsocketFrameType); 5])
    ensures
        r@ == frame_type_mask_mapping_spec(),
{
    let r = [
        (CURLWS_TEXT, WebsocketFrameType::Text),
        (CURLWS_BINARY, WebsocketFrameType::Binary),
        (CURLWS_PING, WebsocketFrameType::Ping),
        (CURLWS_PONG, WebsocketFrameType::Pong),
        (CURLWS_CLOSE, WebsocketFrameType::Close),
    ];
    assert(r@ =~= frame_type_mask_mapping_spec());
    r
}

/// What a frame's metadata holds: its flag bits, the offset of this chunk
/// into the frame's payload, the payload bytes still to come, and the
/// length of this chunk.
pub struct FrameMetadataView {
    pub flags: i32,
    pub offset: i64,
    pub bytes_left: i64,
    pub len: usize,
}

/// Metadata of a received WebSocket frame.
#[derive(Debug, Clone)]
pub struct WebsocketFrameMetadata {
    flags: i32,
    offset: i64,
    bytes_left: i64,
    len: usize,
}

impl View for WebsocketFrameMetadata {
    type V = FrameMetadataView;

    closed spec fn view(&self) -> FrameMetadataView {
        FrameMetadataView {
            flags: self.flags,
            offset: self.offset,
            bytes_left: self.bytes_left,
            len: self.len,
        }
    }
}

impl WebsocketFrameMetadata {
    /// Metadata with the fields of a frame as libcurl reports it
    /// (`flags`, `offset`, `bytesleft` and `len` of a `curl_ws_frame`).
    pub fn from_raw(flags: i32, offset: i64, bytes_left: i64, len: usize) -> (r: Self)
        ensures
            r@ == (FrameMetadataView { flags, offset, bytes_left, len }),
    {
        WebsocketFrameMetadata { flags, offset, bytes_left, len }
    }

    /// Can only occur in conjunction with frame type
    /// [`WebsocketFrameType::Text`] or [`WebsocketFrameType::Binary`].
    ///
    /// This is not the final fragment of the message, it implies that there is
    /// another fragment coming as part of the same message. The application
    /// must reassemble the fragments to receive the complete message.
    ///
    /// Only a single fragmented message can be transmitted at a time, but it
    /// may be interrupted by [`WebsocketFrameType::Ping`],
    /// [`WebsocketFrameType::Pong`] or [`WebsocketFrameType::Close`] frames.
    pub fn is_cont(&self) -> (r: bool)
        ensures
            r == (self@.flags as u32 & CURLWS_CONT != 0),
    {
        self.flags as u32 & CURLWS_CONT != 0
    }

    /// Whether the flags carry a frame type that [`Self::frame_type`] can
    /// report: none at all (a raw frame), or one of the text, binary, ping,
    /// pong and close bits.
    pub fn has_frame_type(&self) -> (r: bool)
        ensures
            r == (frame_type_of_flags(self@.flags) is Some),
    {
        let bits = #[verifier::truncate] (self.flags as u32);
        assert(1u32 | 2u32 | 16u32 | 64u32 | 8u32 == 91u32) by (bit_vector);
        assert((bits & 91u32 != 0) == (bits & 1u32 != 0 || bits & 2u32 != 0 || bits & 16u32 != 0
            || bits & 64u32 != 0 || bits & 8u32 != 0)) by (bit_vector);
        self.flags == 0 || bits & (CURLWS_TEXT | CURLWS_BINARY | CURLWS_PING | CURLWS_PONG
            | CURLWS_CLOSE) != 0
    }

    /// Get the message type of the frame.
    pub fn frame_type(&self) -> (r: WebsocketFrameType)
        requires
            frame_type_of_flags(self@.flags) is Some,
        ensures
            frame_type_of_flags(self@.flags) == Some(r),
    {
        if self.flags == 0 {
            return WebsocketFrameType::Raw;
        }
        let bits = #[verifier::truncate] (self.flags as u32);
        let mapping = frame_type_mask_mapping();
        let mut i: usize = 0;
        while i < 5
            invariant
                0 <= i <= 5,
                self.flags != 0,
                bits == #[verifier::truncate] (self.flags as u32),
                frame_type_of_flags(self.flags) is Some,
                mapping@ == frame_type_mask_mapping_spec(),
                forall|j: int| 0 <= j < i ==> bits & #[trigger] mapping@[j].0 == 0,
            decreases 5 - i,
        {
            let (mask, frame_type) = mapping[i];
            if bits & mask != 0 {
                // name the entries passed over, in the order of `frame_type_of_flags`
                assert(mapping@[0].0 == CURLWS_TEXT);
                assert(mapping@[1].0 == CURLWS_BINARY);
                assert(mapping@[2].0 == CURLWS_PING);
                assert(mapping@[3].0 == CURLWS_PONG);
                return frame_type;
            }
            i = i + 1;
        }
        // No known type bit is set: the precondition rules this out.
        assert(bits & mapping@[0].0 == 0 && bits & mapping@[1].0 == 0 && bits & mapping@[2].0 == 0
            && bits & mapping@[3].0 == 0 && bits & mapping@[4].0 == 0);
        assert(false);
        WebsocketFrameType::Raw
    }

    /// Check if the frame is a text message.
    pub fn is_text(&self) -> (r: bool)
        requires
            frame_type_of_flags(self@.flags) is Some,
        ensures
            r == (frame_type_of_flags(self@.flags) == Some(WebsocketFrameType::Text)),
    {
        self.frame_type() == WebsocketFrameType::Text
    }

    /// Check if the frame is a binary message.
    pub fn is_binary(&self) -> (r: bool)
        requires
            frame_type_of_flags(self@.flags) is Some,
        ensures
            r == (frame_type_of_flags(self@.flags) == Some(WebsocketFrameType::Binary)),
    {
        self.frame_type() == WebsocketFrameType::Binary
    }

    /// Check if the frame is a ping message.
    pub fn is_ping(&self) -> (r: bool)
        requires
            frame_type_of_flags(self@.flags) is Some,
        ensures
            r == (frame_type_of_flags(self@.flags) == Some(WebsocketFrameType::Ping)),
    {
        self.frame_type() == WebsocketFrameType::Ping
    }

    /// Check if the frame is a pong message.
    pub fn is_pong(&self) -> (r: bool)
        requires
            frame_type_of_flags(self@.flags) is Some,
        ensures
            r == (frame_type_of_flags(self@.flags) == Some(WebsocketFrameType::Pong)),
    {
        self.frame_type() == WebsocketFrameType::Pong
    }

    /// Check if the frame is a close message.
    pub fn is_close(&self) -> (r: bool)
        requires
            frame_type_of_flags(self@.flags) is Some,
        ensures
            r == (frame_type_of_flags(self@.flags) == Some(WebsocketFrameType::Close)),
    {
        self.frame_type() == WebsocketFrameType::Close
    }

    /// When this chunk is a continuation of frame data already delivered, this
    /// is the offset into the final frame data where this piece belongs to.
    pub fn offset(&self) -> (r: i64)
        ensures
            r == self@.offset,
    {
        self.offset
    }

    /// If this is not a complete fragment, this property informs about how
    /// many additional bytes are expected to arrive before this fragment is
    /// complete.
    pub fn bytes_left(&self) -> (r: i64)
        ensures
            r == self@.bytes_left,
    {
        self.bytes_left
    }

    /// The length of the current data chunk.
    pub fn length(&self) -> (r: usize)
        ensures
            r == self@.len,
    {
        self.len
    }
}


/// Options to specify WebSocket behaviors.
#[derive(Debug, Clone, Copy, PartialEq, Eq, Structural)]
pub struct WebsocketOptions {
    bitmask: u64,
}

impl View for WebsocketOptions {
    type V = u64;

    /// The `CURLOPT_WS_OPTIONS` bitmask that these options stand for.
    closed spec fn view(&self) -> u64 {
        self.bitmask
    }
}

impl WebsocketOptions {
    /// Create a [`WebsocketOptions`] with no options set.
    #[must_use]
    pub fn new() -> (r: Self)
        ensures
            r@ == 0,
    {
        Self { bitmask: 0 }
    }

    /// The bitmask to hand to libcurl as `CURLOPT_WS_OPTIONS`.
    pub fn to_bitmask(self) -> (r: u64)
        ensures
            r == self@,
    {
        self.bitmask
    }

    /// Tell libcurl to pass on the data from the network without parsing it,
    /// leaving that entirely to the application.
    ///
    /// This mode is intended for applications that already have a WebSocket
    /// parser/engine and want to switch over to use libcurl for enabling
    /// WebSocket, and keep parts of the existing software architecture.
    ///
    /// In raw mode, libcurl does not handle pings or any other frame for the
    /// application.
    pub fn raw_mode(&self) -> (r: Self)
        ensures
            r@ == self@ | CURLWS_RAW_MODE,
    {
        Self { bitmask: self.bitmask | CURLWS_RAW_MODE }
    }
}

impl Default for WebsocketOptions {
    fn default() -> (r: Self)
        ensures
            r@ == 0,
    {
        Self { bitmask: 0 }
    }
}


/// A frame announced with the flag bits of type `t` is read back as a frame
/// of type `t`.
pub proof fn lemma_flag_of_decodes_to_type(t: WebsocketFrameType)
    ensures
        frame_type_of_flags(flag_of(t) as i32) == Some(t),
{
    assert(1u32 & 1u32 != 0 && 2u32 & 1u32 == 0 && 2u32 & 2u32 != 0 && 16u32 & 1u32 == 0
        && 16u32 & 2u32 == 0 && 16u32 & 16u32 != 0 && 64u32 & 1u32 == 0 && 64u32 & 2u32 == 0
        && 64u32 & 16u32 == 0 && 64u32 & 64u32 != 0 && 8u32 & 1u32 == 0 && 8u32 & 2u32 == 0
        && 8u32 & 16u32 == 0 && 8u32 & 64u32 == 0 && 8u32 & 8u32 != 0) by (bit_vector);
}

/// Marking a text, binary, ping, pong or close frame as a non-final fragment
/// leaves its type as it was, and the fragment then reads as a continuation.
pub proof fn lemma_continuation_keeps_type(flags: i32, t: WebsocketFrameType)
    requires
        frame_type_of_flags(flags) == Some(t),
        t != WebsocketFrameType::Raw,
    ensures
        frame_type_of_flags(flags | (CURLWS_CONT as i32)) == Some(t),
        (flags | (CURLWS_CONT as i32)) as u32 & CURLWS_CONT != 0,
{
    let g = flags | 4i32;
    assert(g != 0) by (bit_vector)
        requires g == flags | 4i32;
    assert((g as u32 & 1u32) == (flags as u32 & 1u32) && (g as u32 & 2u32) == (flags as u32 & 2u32)
        && (g as u32 & 16u32) == (flags as u32 & 16u32) && (g as u32 & 64u32) == (flags as u32
        & 64u32) && (g as u32 & 8u32) == (flags as u32 & 8u32) && (g as u32 & 4u32) != 0)
        by (bit_vector)
        requires g == flags | 4i32;
}

/// Options are equal exactly when they stand for the same bitmask.
pub proof fn lemma_options_eq_by_bitmask(a: WebsocketOptions, b: WebsocketOptions)
    ensures
        (a == b) <==> (a@ == b@),
{
}

/// Raw mode sets its own bit, leaves every other bit as it was, and asking
/// for it a second time changes nothing.
pub proof fn lemma_raw_mode_sets_its_bit(bits: u64)
    ensures
        (bits | CURLWS_RAW_MODE) & CURLWS_RAW_MODE == CURLWS_RAW_MODE,
        (bits | CURLWS_RAW_MODE) & !CURLWS_RAW_MODE == bits & !CURLWS_RAW_MODE,
        (bits | CURLWS_RAW_MODE) | CURLWS_RAW_MODE == bits | CURLWS_RAW_MODE,
{
    assert((bits | 1u64) & 1u64 == 1u64 && (bits | 1u64) & !1u64 == bits & !1u64 && (bits | 1u64)
        | 1u64 == bits | 1u64) by (bit_vector);
}

} // verus!
