use base64::Engine;
use vstd::prelude::*;

use crate::frame::VideoFrame;

verus! {

/// How long one iteration of the streaming loop waits for a frame.
pub const STREAM_POLL_TIMEOUT_MS: u64 = 100;

/// The pause between two iterations of the streaming loop.
pub const STREAM_YIELD_MS: u64 = 1;

/// The tag that tells the UI how a payload is compressed.
pub open spec fn h264_tag() -> Seq<char> {
    seq!['h', '2', '6', '4']
}

/// The padded standard base64 text of `bytes`.
pub uninterp spec fn base64_of(bytes: Seq<u8>) -> Seq<char>;

/// Relies on base64's `Engine::encode` with the `STANDARD` engine (standard
/// alphabet, with padding): the text depends on the bytes alone and holds
/// four characters for every started group of three bytes. `encode` panics
/// where that length overflows `usize`, which the bound rules out.
#[verifier::external_body]
fn encode_base64(bytes: &[u8]) -> (r: String)
    requires
        bytes@.len() <= usize::MAX / 2,
    ensures
        r@ == base64_of(bytes@),
        r@.len() == 4 * ((bytes@.len() + 2) / 3),
{
    base64::engine::general_purpose::STANDARD.encode(bytes)
}

/// The event that announces a frame to the UI.
#[derive(Debug)]
pub struct FramePayload {
    /// The compressed payload as base64 text.
    pub data: String,
    pub width: u32,
    pub height: u32,
    /// The compression format.
    pub format: String,
}

/// The event for a frame whose payload reads `encoded` in base64.
pub fn payload_from_encoded(encoded: String, width: u32, height: u32) -> (r: FramePayload)
    ensures
        r.data@ == encoded@,
        r.width == width,
        r.height == height,
        r.format@ == h264_tag(),
{
    let format = "h264".to_owned();
    proof {
        reveal_strlit("h264");
    }
    assert(format@ =~= h264_tag());
    FramePayload { data: encoded, width, height, format }
}

/// The event for `frame`: its payload in base64, its size and the format tag.
pub fn frame_payload(frame: &VideoFrame) -> (r: FramePayload)
    requires
        frame.data@.len() <= usize::MAX / 2,
    ensures
        r.data@ == base64_of(frame.data@),
        r.data@.len() == 4 * ((frame.data@.len() + 2) / 3),
        r.width == frame.width,
        r.height == frame.height,
        r.format@ == h264_tag(),
{
    let encoded = encode_base64(frame.data.as_slice());
    payload_from_encoded(encoded, frame.width, frame.height)
}

/// The streaming flag: the loop checks it at the top of every
/// iteration and ends once it is closed.
pub struct VideoStream {
    active: bool,
}

impl View for VideoStream {
    type V = bool;

    closed spec fn view(&self) -> bool {
        self.active
    }
}

impl VideoStream {
    pub fn new() -> (r: VideoStream)
        ensures
            !r@,
    {
        VideoStream { active: false }
    }

    /// Raises the flag. Returns whether a loop is to be started: not where
    /// one already streams.
    pub fn begin(&mut self) -> (spawn: bool)
        ensures
            final(self)@,
            spawn == !old(self)@,
    {
        let spawn = !self.active;
        self.active = true;
        spawn
    }

    /// Lowers the flag; lowering a lowered flag changes nothing.
    pub fn end(&mut self)
        ensures
            !final(self)@,
    {
        self.active = false;
    }

    /// Whether the loop goes on with another iteration.
    pub fn is_active(&self) -> (r: bool)
        ensures
            r == self@,
    {
        self.active
    }
}

} // verus!
