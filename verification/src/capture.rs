//! Screen capture: the polling policy, the advisory capturing flag and the
//! conversion of a native frame buffer to RGBA.
//!
//! Nothing here touches a display. The caller owns the capture handle, the clock
//! and the sleep; it reports what each non-blocking query gave and does what
//! [`poll_step`] answers.

use vstd::prelude::*;
use vstd::string::*;

verus! {

/// How long a capture may wait for its first frame, in nanoseconds (one second).
pub const POLL_TIMEOUT_NANOS: u128 = 1_000_000_000;

/// How long to sleep between two queries, in milliseconds.
pub const POLL_INTERVAL_MILLIS: u64 = 1;

/// What one non-blocking query of the capture handle gave.
#[derive(Debug, Clone, PartialEq, Eq)]
pub enum PollEvent {
    /// A frame is available.
    FrameReady,
    /// The handle has no frame yet.
    NotReady,
    /// The handle failed for another reason; the text is its own description.
    Failed(String),
}

/// Why a capture ended without a frame.
#[derive(Debug, Clone, PartialEq, Eq)]
pub enum CaptureError {
    /// No frame arrived within [`POLL_TIMEOUT_NANOS`].
    Timeout,
    /// The capture source reported a failure, described by the text.
    Source(String),
}

/// What the caller does after a query.
#[derive(Debug, Clone, PartialEq, Eq)]
pub enum PollAction {
    /// Take the frame and convert it.
    Deliver,
    /// Sleep for [`POLL_INTERVAL_MILLIS`] and query again.
    Retry,
    /// Give up with this error.
    Fail(CaptureError),
}

/// The polling policy as a function of the query's outcome and of the time that
/// has passed since the capture began.
pub open spec fn poll_decision(event: PollEvent, elapsed_nanos: u128) -> PollAction {
    match event {
        PollEvent::FrameReady => PollAction::Deliver,
        PollEvent::NotReady => if elapsed_nanos > POLL_TIMEOUT_NANOS {
            PollAction::Fail(CaptureError::Timeout)
        } else {
            PollAction::Retry
        },
        PollEvent::Failed(description) => PollAction::Fail(CaptureError::Source(description)),
    }
}

/// Decides what follows one query of the capture handle.
///
/// A ready frame is delivered whatever the clock says. A handle that is not ready
/// is asked again after a short sleep, unless more than a second has passed since
/// the capture began: then the capture times out. Any other failure ends the
/// capture at once, with the handle's own description.
pub fn poll_step(event: PollEvent, elapsed_nanos: u128) -> (action: PollAction)
    ensures
        action == poll_decision(event, elapsed_nanos),
{
    match event {
        PollEvent::FrameReady => PollAction::Deliver,
        PollEvent::NotReady => {
            if elapsed_nanos > POLL_TIMEOUT_NANOS {
                PollAction::Fail(CaptureError::Timeout)
            } else {
                PollAction::Retry
            }
        },
        PollEvent::Failed(description) => PollAction::Fail(CaptureError::Source(description)),
    }
}

/// When query number `query` is made if queries follow each other `interval`
/// nanoseconds apart, the first at the start of the capture.
pub open spec fn query_time(query: nat, interval: nat) -> u128 {
    (query * interval) as u128
}

/// A source that is never ready makes the capture time out, and soon: with queries
/// `interval` apart, every query made within the deadline is answered by a retry,
/// and the first one made after it ends the capture with a timeout, at most one
/// interval past the deadline.
pub proof fn lemma_never_ready_times_out(interval: nat)
    requires
        0 < interval <= POLL_TIMEOUT_NANOS,
    ensures
        ({
            let last = POLL_TIMEOUT_NANOS as nat / interval + 1;
            &&& POLL_TIMEOUT_NANOS < last * interval <= POLL_TIMEOUT_NANOS + interval
            &&& poll_decision(PollEvent::NotReady, query_time(last, interval)) == PollAction::Fail(
                CaptureError::Timeout,
            )
            &&& forall|query: nat|
                query < last ==> poll_decision(
                    PollEvent::NotReady,
                    #[trigger] query_time(query, interval),
                ) == PollAction::Retry
        }),
{
    let deadline = POLL_TIMEOUT_NANOS as nat;
    let whole = deadline / interval;
    assert(whole * interval <= deadline < (whole + 1) * interval && (whole + 1) * interval
        == whole * interval + interval) by (nonlinear_arith)
        requires
            0 < interval,
            whole == deadline / interval,
    ;
    assert forall|query: nat| query < whole + 1 implies poll_decision(
        PollEvent::NotReady,
        #[trigger] query_time(query, interval),
    ) == PollAction::Retry by {
        assert(query * interval <= whole * interval) by (nonlinear_arith)
            requires
                query <= whole,
        ;
    }
}

/// Whether the pixel at `index` can be read whole: the four bytes that start at
/// its offset `index * stride` all lie inside a buffer of `len` bytes.
pub open spec fn pixel_readable(len: nat, stride: nat, index: nat) -> bool {
    index * stride + 3 < len
}

/// How many of the first `count` pixels are converted.
///
/// Offsets grow with the index, so a readable pixel has only readable pixels
/// before it: the converted pixels are the first `readable_pixels` ones.
pub open spec fn readable_pixels(len: nat, stride: nat, count: nat) -> nat
    decreases count,
{
    if count == 0 {
        0
    } else if pixel_readable(len, stride, (count - 1) as nat) {
        count
    } else {
        readable_pixels(len, stride, (count - 1) as nat)
    }
}

/// The native channel that an output channel is taken from: red and blue trade
/// places, green and alpha stay.
pub open spec fn channel_source(channel: int) -> int {
    if channel == 0 {
        2
    } else if channel == 2 {
        0
    } else {
        channel
    }
}

/// The RGBA bytes of the first `pixels` pixels of a native buffer: four bytes for
/// each, whatever the stride.
pub open spec fn rgba_pixels(native: Seq<u8>, stride: nat, pixels: nat) -> Seq<u8> {
    Seq::new(4 * pixels, |k: int| native[(k / 4) * stride + channel_source(k % 4)])
}

/// The four RGBA bytes of the pixel at `index`.
pub open spec fn rgba_pixel(native: Seq<u8>, stride: nat, index: nat) -> Seq<u8> {
    let offset = (index * stride) as int;
    seq![native[offset + 2], native[offset + 1], native[offset], native[offset + 3]]
}

/// What converting `count` pixels of a native buffer gives: the RGBA bytes of the
/// pixels that can be read whole, in order, and nothing for the others.
pub open spec fn converted(native: Seq<u8>, stride: nat, count: nat) -> Seq<u8> {
    rgba_pixels(native, stride, readable_pixels(native.len(), stride, count))
}

/// A pixel before a readable pixel is readable.
pub proof fn lemma_readable_is_downward_closed(len: nat, stride: nat, index: nat, earlier: nat)
    requires
        pixel_readable(len, stride, index),
        earlier <= index,
    ensures
        pixel_readable(len, stride, earlier),
{
    assert(earlier * stride <= index * stride) by (nonlinear_arith)
        requires
            earlier <= index,
    ;
}

/// The count of converted pixels is at most `count`; every pixel below it is
/// readable, and the pixel at it, if there is one among the `count`, is not.
pub proof fn lemma_readable_pixels_bounds(len: nat, stride: nat, count: nat)
    ensures
        readable_pixels(len, stride, count) <= count,
        forall|index: nat|
            index < readable_pixels(len, stride, count) ==> pixel_readable(len, stride, index),
        forall|index: nat|
            readable_pixels(len, stride, count) <= index < count ==> !pixel_readable(
                len,
                stride,
                index,
            ),
    decreases count,
{
    if count == 0 {
    } else if pixel_readable(len, stride, (count - 1) as nat) {
        assert forall|index: nat| index < count implies pixel_readable(len, stride, index) by {
            lemma_readable_is_downward_closed(len, stride, (count - 1) as nat, index);
        }
    } else {
        lemma_readable_pixels_bounds(len, stride, (count - 1) as nat);
    }
}

/// The output holds whole pixels only, and no more than were asked for: its length
/// is four times the count of readable pixels, which is at most `count`.
pub proof fn lemma_output_is_whole_pixels(native: Seq<u8>, stride: nat, count: nat)
    ensures
        converted(native, stride, count).len() == 4 * readable_pixels(native.len(), stride, count),
        converted(native, stride, count).len() <= 4 * count,
{
    lemma_readable_pixels_bounds(native.len(), stride, count);
}

/// Converting one pixel more appends that pixel's four bytes if it is readable,
/// and nothing if it is not.
pub proof fn lemma_converted_step(native: Seq<u8>, stride: nat, count: nat)
    ensures
        converted(native, stride, count + 1) == if pixel_readable(native.len(), stride, count) {
            converted(native, stride, count) + rgba_pixel(native, stride, count)
        } else {
            converted(native, stride, count)
        },
{
    let len = native.len();
    if pixel_readable(len, stride, count) {
        assert(readable_pixels(len, stride, count) == count) by {
            if count > 0 {
                lemma_readable_is_downward_closed(len, stride, count, (count - 1) as nat);
            }
        }
        let longer = rgba_pixels(native, stride, count + 1);
        let shorter = rgba_pixels(native, stride, count) + rgba_pixel(native, stride, count);
        assert(longer.len() == shorter.len());
        assert forall|k: int| 0 <= k < longer.len() implies longer[k] == shorter[k] by {
            if k >= 4 * count {
                assert(k / 4 == count);
            }
        }
        assert(longer =~= shorter);
    }
}

/// Repacks a native frame buffer as RGBA.
///
/// The buffer holds `width * height` pixels, the pixel in row `y` and column `x` at
/// offset `(y * width + x) * stride`. Each pixel whose four channels lie inside the
/// buffer gives four output bytes: the native first and third channel trade
/// places, the second and fourth stay, and what lies between this pixel's fourth
/// byte and the next pixel is dropped. A pixel that cannot be read whole gives
/// nothing.
pub fn convert_pixels(native: &[u8], width: usize, height: usize, stride: usize) -> (rgba: Vec<u8>)
    requires
        width * height <= usize::MAX,
    ensures
        rgba@ == converted(native@, stride as nat, (width * height) as nat),
{
    let len: usize = native.len();
    let mut rgba: Vec<u8> = Vec::new();
    let mut y: usize = 0;
    while y < height
        invariant
            y <= height,
            len == native@.len(),
            width * height <= usize::MAX,
            rgba@ == converted(native@, stride as nat, (y * width) as nat),
        decreases height - y,
    {
        let mut x: usize = 0;
        while x < width
            invariant
                y < height,
                x <= width,
                len == native@.len(),
                width * height <= usize::MAX,
                rgba@ == converted(native@, stride as nat, (y * width + x) as nat),
            decreases width - x,
        {
            assert(y * width + x < width * height) by (nonlinear_arith)
                requires
                    y < height,
                    x < width,
            ;
            let index: usize = y * width + x;
            proof {
                lemma_converted_step(native@, stride as nat, index as nat);
            }
            match index.checked_mul(stride) {
                Some(offset) => {
                    if offset < len && len - offset > 3 {
                        rgba.push(native[offset + 2]);
                        rgba.push(native[offset + 1]);
                        rgba.push(native[offset]);
                        rgba.push(native[offset + 3]);
                        assert(rgba@ == converted(native@, stride as nat, index as nat)
                            + rgba_pixel(native@, stride as nat, index as nat));
                    }
                },
                None => {},
            }
            x = x + 1;
        }
        assert(y * width + width == (y + 1) * width) by (nonlinear_arith);
        y = y + 1;
    }
    assert(height * width == width * height) by (nonlinear_arith);
    rgba
}

/// The stride that a buffer of `len` bytes has when it holds `pixels` pixels: the
/// whole number of bytes that each pixel gets.
pub open spec fn native_stride(len: nat, pixels: nat) -> nat {
    len / pixels
}

/// The per-pixel stride of a native buffer of `len` bytes for a display of
/// `width` by `height` pixels.
pub fn pixel_stride(len: usize, width: usize, height: usize) -> (stride: usize)
    requires
        0 < width,
        0 < height,
        width * height <= usize::MAX,
    ensures
        stride == native_stride(len as nat, (width * height) as nat),
{
    assert(0 < width * height) by (nonlinear_arith)
        requires
            0 < width,
            0 < height,
    ;
    len / (width * height)
}

/// Converts the frame that a display of `width` by `height` pixels delivered.
///
/// The stride is not assumed to be four: it is what the buffer's length gives for
/// that many pixels, so that padding after each pixel is skipped.
pub fn frame_to_rgba(native: &[u8], width: usize, height: usize) -> (rgba: Vec<u8>)
    requires
        0 < width,
        0 < height,
        width * height <= usize::MAX,
    ensures
        rgba@ == converted(
            native@,
            native_stride(native@.len(), (width * height) as nat),
            (width * height) as nat,
        ),
{
    let stride: usize = pixel_stride(native.len(), width, height);
    convert_pixels(native, width, height, stride)
}

/// A buffer with room for every pixel is converted whole: the output has four
/// bytes for each pixel, and byte `channel` of pixel `index` is the native byte
/// that [`channel_source`] names.
pub proof fn lemma_whole_buffer_is_converted(native: Seq<u8>, stride: nat, count: nat)
    requires
        count == 0 || pixel_readable(native.len(), stride, (count - 1) as nat),
    ensures
        converted(native, stride, count).len() == 4 * count,
        forall|index: int, channel: int|
            0 <= index < count && 0 <= channel < 4 ==> #[trigger] converted(
                native,
                stride,
                count,
            )[4 * index + channel] == native[index * stride + channel_source(channel)],
{
    let out = converted(native, stride, count);
    assert forall|index: int, channel: int| 0 <= index < count && 0 <= channel < 4 implies (
    #[trigger] out[4 * index + channel]) == native[index * stride + channel_source(channel)] by {
        let k = 4 * index + channel;
        assert(k / 4 == index);
        assert(k % 4 == channel);
    }
}

/// A frame of at least four bytes a pixel is converted whole when the stride is
/// taken from its length: the output has `4 * count` bytes.
pub proof fn lemma_full_frame_length(native: Seq<u8>, count: nat)
    requires
        0 < count,
        native.len() >= 4 * count,
    ensures
        converted(native, native_stride(native.len(), count), count).len() == 4 * count,
{
    let len = native.len();
    let stride = native_stride(len, count);
    assert(stride >= 4 && stride * count <= len) by (nonlinear_arith)
        requires
            0 < count,
            len >= 4 * count,
            stride == len / count,
    ;
    assert((count - 1) * stride + 3 < len) by (nonlinear_arith)
        requires
            0 < count,
            stride >= 4,
            stride * count <= len,
    ;
    lemma_whole_buffer_is_converted(native, stride, count);
}

/// A buffer that ends inside its last pixel gives the pixels before it and
/// nothing for the last: with a byte missing from the last of `count` pixels, the
/// output is the conversion of the first `count - 1`.
pub proof fn lemma_truncated_last_pixel_is_dropped(native: Seq<u8>, stride: nat, count: nat)
    requires
        0 < count,
        0 < stride,
        native.len() + 1 == (count - 1) * stride + 4,
    ensures
        converted(native, stride, count) == rgba_pixels(native, stride, (count - 1) as nat),
        converted(native, stride, count).len() == 4 * (count - 1),
{
    let len = native.len();
    assert(!pixel_readable(len, stride, (count - 1) as nat));
    if count > 1 {
        assert((count - 2) * stride + 3 < (count - 1) * stride + 3) by (nonlinear_arith)
            requires
                0 < stride,
        ;
        assert(pixel_readable(len, stride, (count - 2) as nat));
    }
    assert(readable_pixels(len, stride, (count - 1) as nat) == count - 1);
    assert(readable_pixels(len, stride, count) == count - 1);
}

impl CaptureError {
    /// The description that a caller shows for this error.
    pub open spec fn text(self) -> Seq<char> {
        match self {
            CaptureError::Timeout => "Timeout waiting for frame"@,
            CaptureError::Source(description) => description@,
        }
    }

    /// The error as a plain descriptive string.
    pub fn message(&self) -> (text: String)
        ensures
            text@ == self.text(),
    {
        match self {
            CaptureError::Timeout => String::from_str("Timeout waiting for frame"),
            CaptureError::Source(description) => description.clone(),
        }
    }
}

/// A frame in RGBA, as handed to the front end.
#[derive(Debug, Clone, PartialEq, Eq)]
pub struct FrameData {
    /// Width of the display in pixels when the frame was taken.
    pub width: usize,
    /// Height of the display in pixels when the frame was taken.
    pub height: usize,
    /// Four bytes for each converted pixel, row by row.
    pub data: Vec<u8>,
    /// Time from the start of the capture to the end of the conversion, in
    /// nanoseconds.
    pub frame_time_nanos: u128,
}

/// The advisory flag that the front end sets and clears. It does not gate
/// captures.
#[derive(Debug, Clone, Copy, PartialEq, Eq)]
pub struct CaptureState {
    /// Whether the front end has asked for capturing.
    pub is_capturing: bool,
}

impl CaptureState {
    /// The state at startup: idle.
    pub fn new() -> (state: CaptureState)
        ensures
            !state.is_capturing,
    {
        CaptureState { is_capturing: false }
    }
}

/// Marks the front end as capturing. Always succeeds.
pub fn start_capture(state: &mut CaptureState) -> (reply: Result<(), String>)
    ensures
        reply is Ok,
        final(state).is_capturing,
{
    state.is_capturing = true;
    Ok(())
}

/// Marks the front end as idle. Always succeeds.
pub fn stop_capture(state: &mut CaptureState) -> (reply: Result<(), String>)
    ensures
        reply is Ok,
        !final(state).is_capturing,
{
    state.is_capturing = false;
    Ok(())
}

} // verus!
