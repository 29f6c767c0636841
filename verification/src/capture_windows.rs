//! Camera capture over Media Foundation: choosing a format and unpacking samples.

use vstd::prelude::*;

use crate::capture::{CameraAuthorization, CameraStream, Capture, CaptureError, Frame};
use crate::text::{ascii_lower, chars_of, lowercased, same_chars};

verus! {

/// The preview's target frame width. The native format closest to it wins.
pub const TARGET_WIDTH: u32 = 1280;

/// Desktop applications are governed only by a system-wide switch that cannot be
/// queried: the camera counts as usable, and activation brings a refusal.
#[must_use]
pub fn camera_access_granted() -> (yes: bool)
    ensures
        yes,
{
    true
}

/// There is no permission per application.
#[must_use]
pub fn camera_authorization() -> (out: CameraAuthorization)
    ensures
        out == CameraAuthorization::Granted,
{
    CameraAuthorization::Granted
}

/// The width in a frame size, which stands in its high half.
pub open spec fn width_of(size: u64) -> int {
    size as int / 0x1_0000_0000
}

/// The height in a frame size, which stands in its low half.
pub open spec fn height_of(size: u64) -> int {
    size as int % 0x1_0000_0000
}

/// How far a width is from the target.
pub open spec fn width_gap(size: u64) -> int {
    if width_of(size) >= TARGET_WIDTH {
        width_of(size) - TARGET_WIDTH
    } else {
        TARGET_WIDTH - width_of(size)
    }
}

fn gap(size: u64) -> (out: u64)
    ensures
        out == width_gap(size),
{
    let width: u64 = size / 0x1_0000_0000;
    if width >= TARGET_WIDTH as u64 {
        width - TARGET_WIDTH as u64
    } else {
        TARGET_WIDTH as u64 - width
    }
}

/// `best` is the size closest to the target width, the first one among equals.
pub open spec fn is_best(sizes: Seq<Option<u64>>, best: Option<u64>) -> bool {
    match best {
        Some(size) => exists|i: int|
            0 <= i < sizes.len() && #[trigger] sizes[i] == Some(size) && is_closest(sizes, i),
        None => forall|i: int| 0 <= i < sizes.len() ==> #[trigger] sizes[i] is None,
    }
}

/// No size is closer than the one at `i`, and none before it is as close.
pub open spec fn is_closest(sizes: Seq<Option<u64>>, i: int) -> bool {
    sizes[i] matches Some(size) && forall|j: int|
        0 <= j < sizes.len() ==> (#[trigger] sizes[j] matches Some(other) ==> if j < i {
            width_gap(size) < width_gap(other)
        } else {
            width_gap(size) <= width_gap(other)
        })
}

/// The native frame size closest to the preview's width, so that a camera does
/// not deliver many times the pixels that the preview can show. Formats without a
/// size are passed over.
pub fn best_frame_size(sizes: &[Option<u64>]) -> (best: Option<u64>)
    ensures
        is_best(sizes@, best),
{
    let n: usize = sizes.len();
    let mut best: Option<u64> = None;
    let ghost mut at: int = 0;
    let mut i: usize = 0;
    while i < n
        invariant
            i <= n,
            n == sizes@.len(),
            match best {
                Some(size) => 0 <= at < i && sizes@[at] == Some(size) && is_closest(
                    sizes@.take(i as int),
                    at,
                ),
                None => forall|k: int| 0 <= k < i ==> #[trigger] sizes@[k] is None,
            },
        decreases n - i,
    {
        let ghost here = sizes@.take(i as int);
        let ghost next = sizes@.take(i as int + 1);
        match sizes[i] {
            Some(size) => {
                let better: bool = match best {
                    Some(b) => gap(size) < gap(b),
                    None => true,
                };
                proof {
                    if best is Some {
                        assert forall|j: int| 0 <= j < i implies next[j] == here[j] by {}
                        assert forall|j: int| 0 <= j < i implies (#[trigger] next[j] matches Some(
                            other,
                        ) ==> width_gap(best->0) <= width_gap(other)) by {
                            assert(here[j] == next[j]);
                        }
                        if !better {
                            assert forall|j: int| 0 <= j < next.len() implies (
                            #[trigger] next[j] matches Some(other) ==> if j < at {
                                width_gap(best->0) < width_gap(other)
                            } else {
                                width_gap(best->0) <= width_gap(other)
                            }) by {
                                if j < i {
                                    assert(here[j] == next[j]);
                                }
                            }
                            assert(is_closest(next, at));
                        }
                    }
                }
                if better {
                    best = Some(size);
                    proof {
                        at = i as int;
                        assert(is_closest(next, at));
                    }
                }
            },
            None => {
                proof {
                    if best is Some {
                        assert forall|j: int| 0 <= j < next.len() implies (
                        #[trigger] next[j] matches Some(other) ==> if j < at {
                            width_gap(best->0) < width_gap(other)
                        } else {
                            width_gap(best->0) <= width_gap(other)
                        }) by {
                            if j < i {
                                assert(here[j] == next[j]);
                            }
                        }
                        assert(is_closest(next, at));
                    }
                }
            },
        }
        i = i + 1;
    }
    assert(sizes@.take(n as int) =~= sizes@);
    best
}

/// The geometry of the frames that were negotiated. A negative stride means that
/// rows arrive from the bottom up.
#[derive(Debug, Clone, Copy, PartialEq, Eq, Structural)]
pub struct StrideHint {
    /// Pixels per row.
    pub width: u32,
    /// Rows.
    pub height: u32,
    /// Bytes from one row to the next.
    pub stride: i32,
}

/// The number that 32 bits stand for when they are read with a sign.
pub open spec fn signed32(n: u32) -> int {
    if n >= 0x8000_0000 {
        n - 0x1_0000_0000
    } else {
        n as int
    }
}

/// The geometry from the negotiated size and stride. Without a stride, rows are
/// packed.
pub fn negotiated(size: u64, stride: Option<u32>) -> (hint: StrideHint)
    requires
        stride is None ==> width_of(size) <= 0x1fff_ffff,
    ensures
        hint.width == width_of(size),
        hint.height == height_of(size),
        hint.stride == match stride {
            Some(s) => signed32(s),
            None => 4 * width_of(size),
        },
{
    let width: u64 = size / 0x1_0000_0000;
    let height: u64 = size % 0x1_0000_0000;
    let step: i32 = match stride {
        Some(s) => if s >= 0x8000_0000 {
            (s as i64 - 0x1_0000_0000) as i32
        } else {
            s as i32
        },
        None => 4 * width as i32,
    };
    StrideHint { width: width as u32, height: height as u32, stride: step }
}

/// Bytes from one row to the next, whatever the direction.
pub open spec fn row_distance(hint: StrideHint) -> int {
    if hint.stride < 0 {
        -(hint.stride as int)
    } else {
        hint.stride as int
    }
}

/// A sample of `len` bytes holds a picture of this geometry.
pub open spec fn fits(len: int, hint: StrideHint) -> bool {
    hint.width > 0 && hint.height > 0 && row_distance(hint) * (hint.height - 1) + 4 * hint.width
        <= len
}

/// Row `y` of the picture in a sample.
pub open spec fn sample_row(data: Seq<u8>, hint: StrideHint, y: int) -> Seq<u8> {
    let source = if hint.stride < 0 {
        hint.height - 1 - y
    } else {
        y
    };
    let at = source * row_distance(hint);
    data.subrange(at, at + 4 * hint.width)
}

/// The first `n` rows of the picture in a sample.
pub open spec fn sample_rows(data: Seq<u8>, hint: StrideHint, n: int) -> Seq<u8>
    decreases n,
{
    if n <= 0 {
        Seq::empty()
    } else {
        sample_rows(data, hint, n - 1) + sample_row(data, hint, n - 1)
    }
}

/// The picture in a locked sample as a tightly packed frame, from the top down.
/// A sample that is empty or too short for its geometry gives none.
pub fn sample_frame(data: &[u8], hint: StrideHint) -> (frame: Option<Frame>)
    requires
        4 * hint.width * hint.height <= usize::MAX,
    ensures
        match frame {
            Some(f) => fits(data@.len() as int, hint) && f.width == hint.width && f.height
                == hint.height && f.bgra@ == sample_rows(data@, hint, hint.height as int),
            None => !fits(data@.len() as int, hint),
        },
{
    if hint.width == 0 || hint.height == 0 {
        return None;
    }
    let distance: u64 = if hint.stride < 0 {
        (-(hint.stride as i64)) as u64
    } else {
        hint.stride as u64
    };
    assert(distance == row_distance(hint));
    let last: u64 = hint.height as u64 - 1;
    assert(distance * last <= 0x8000_0000 * 0xffff_ffff) by (nonlinear_arith)
        requires
            0 <= distance <= 0x8000_0000,
            0 <= last <= 0xffff_ffff,
    ;
    assert(distance * last >= 0) by (nonlinear_arith)
        requires
            0 <= distance,
            0 <= last,
    ;
    let needed: u64 = distance * last + 4 * hint.width as u64;
    if needed > data.len() as u64 {
        return None;
    }
    let len: usize = data.len();
    let row_bytes: usize = 4 * hint.width as usize;
    let mut bgra: Vec<u8> = Vec::new();
    let mut y: u32 = 0;
    while y < hint.height
        invariant
            y <= hint.height,
            hint.width > 0,
            len == data@.len(),
            distance == row_distance(hint),
            distance * (hint.height - 1) + 4 * hint.width <= len,
            row_bytes == 4 * hint.width,
            bgra@ == sample_rows(data@, hint, y as int),
        decreases hint.height - y,
    {
        let source: u64 = if hint.stride < 0 {
            (hint.height - 1 - y) as u64
        } else {
            y as u64
        };
        proof {
            let height = hint.height as int;
            assert(0 <= source * distance <= distance * (height - 1)) by (nonlinear_arith)
                requires
                    0 <= source <= height - 1,
                    0 <= distance,
            ;
        }
        let at: usize = (source * distance) as usize;
        let row: &[u8] = vstd::slice::slice_subrange(data, at, at + row_bytes);
        assert(row@ =~= sample_row(data@, hint, y as int));
        bgra.extend_from_slice(row);
        assert(bgra@ =~= sample_rows(data@, hint, y as int + 1));
        y = y + 1;
    }
    Some(Frame { width: hint.width, height: hint.height, bgra })
}

/// A picture that arrives from the bottom up is turned over: its row `y` is row
/// `height - 1 - y` of the same sample read from the top down.
pub proof fn bottom_up_samples_are_turned_over(
    data: Seq<u8>,
    down: StrideHint,
    up: StrideHint,
    y: int,
)
    requires
        down.stride > 0,
        up == (StrideHint { stride: -(down.stride) as i32, ..down }),
        0 <= y < down.height,
    ensures
        sample_row(data, up, y) == sample_row(data, down, down.height - 1 - y),
{
}

/// The first device whose link is `unique_id`, whatever the case of its letters.
pub open spec fn is_first_link(links: Seq<Option<String>>, unique_id: Seq<char>, i: int) -> bool {
    &&& 0 <= i < links.len()
    &&& link_matches(links[i], unique_id)
    &&& forall|j: int| 0 <= j < i ==> !#[trigger] link_matches(links[j], unique_id)
}

/// The link is `unique_id`, whatever the case of its letters.
pub open spec fn link_matches(link: Option<String>, unique_id: Seq<char>) -> bool {
    link matches Some(s) && ascii_lower(s@) == ascii_lower(unique_id)
}

/// No device has the link `unique_id`, in whatever case.
pub open spec fn lacks_link(links: Seq<Option<String>>, unique_id: Seq<char>) -> bool {
    forall|j: int| 0 <= j < links.len() ==> !#[trigger] link_matches(links[j], unique_id)
}

/// The position of the device to activate: the first whose link is `unique_id`.
/// Devices without a link are passed over.
pub fn find_link(links: &[Option<String>], unique_id: &str) -> (out: Result<usize, CaptureError>)
    ensures
        match out {
            Ok(i) => is_first_link(links@, unique_id@, i as int),
            Err(e) => e == CaptureError::NotFound && forall|j: int|
                0 <= j < links@.len() ==> !#[trigger] link_matches(links@[j], unique_id@),
        },
        out is Err <==> lacks_link(links@, unique_id@),
{
    let id: Vec<char> = chars_of(unique_id);
    let wanted: Vec<char> = lowercased(id.as_slice());
    let n: usize = links.len();
    let mut i: usize = 0;
    while i < n
        invariant
            i <= n,
            n == links@.len(),
            wanted@ == ascii_lower(unique_id@),
            forall|j: int| 0 <= j < i ==> !#[trigger] link_matches(links@[j], unique_id@),
        decreases n - i,
    {
        match &links[i] {
            Some(link) => {
                let chars: Vec<char> = chars_of(link.as_str());
                let lower: Vec<char> = lowercased(chars.as_slice());
                if same_chars(lower.as_slice(), wanted.as_slice()) {
                    assert(link_matches(links@[i as int], unique_id@));
                    return Ok(i);
                }
            },
            None => {},
        }
        i = i + 1;
    }
    Err(CaptureError::NotFound)
}

/// The platform's code for a refusal by the system-wide switch.
pub const E_ACCESSDENIED: i32 = -2147024891;

/// The error of a failed activation: a refusal, or a setup error with the
/// platform's text.
pub fn access_or_setup(code: i32, text: String) -> (e: CaptureError)
    ensures
        e == if code == E_ACCESSDENIED {
            CaptureError::AccessDenied
        } else {
            CaptureError::Setup(text)
        },
{
    if code == E_ACCESSDENIED {
        CaptureError::AccessDenied
    } else {
        CaptureError::Setup(text)
    }
}

/// Activate the device with this link. The outcome of its activation counts only
/// where there is one.
pub fn activate_source(
    links: &[Option<String>],
    unique_id: &str,
    activation: Result<(), (i32, String)>,
) -> (out: Result<usize, CaptureError>)
    ensures
        match out {
            Ok(i) => is_first_link(links@, unique_id@, i as int) && activation is Ok,
            Err(e) => if exists|j: int|
                0 <= j < links@.len() && #[trigger] link_matches(links@[j], unique_id@) {
                activation matches Err(failure) && e == activation_error(failure)
            } else {
                e == CaptureError::NotFound
            },
        },
        lacks_link(links@, unique_id@) ==> out == Err::<usize, CaptureError>(
            CaptureError::NotFound,
        ),
        !lacks_link(links@, unique_id@) ==> match activation {
            Ok(_) => out is Ok,
            Err(failure) => out == Err::<usize, CaptureError>(activation_error(failure)),
        },
{
    match find_link(links, unique_id) {
        Ok(i) => match activation {
            Ok(_) => Ok(i),
            Err((code, text)) => {
                assert(link_matches(links@[i as int], unique_id@));
                Err(access_or_setup(code, text))
            },
        },
        Err(e) => Err(e),
    }
}

/// The error of a failed activation.
pub open spec fn activation_error(failure: (i32, String)) -> CaptureError {
    if failure.0 == E_ACCESSDENIED {
        CaptureError::AccessDenied
    } else {
        CaptureError::Setup(failure.1)
    }
}

/// The steps of setting the reader up.
#[derive(Debug, Clone, Copy, PartialEq, Eq, Structural)]
pub enum ReaderStep {
    /// Create the reader's attributes.
    Attributes,
    /// Let the reader convert what the camera delivers.
    EnableProcessing,
    /// Create the reader.
    Reader,
    /// Create the type of the output.
    OutputType,
    /// Ask for video.
    MajorType,
    /// Ask for four bytes per pixel.
    Subtype,
    /// Ask for the size closest to the preview.
    FrameSize,
    /// Set the type of the output.
    SetType,
    /// Read the negotiated type.
    CurrentType,
    /// Read the negotiated size.
    CurrentSize,
    /// The reader is set up.
    Ready,
}

/// The step after `step`. A size is asked for only where the camera told one.
pub open spec fn next_reader_step(step: ReaderStep, has_size: bool) -> ReaderStep {
    match step {
        ReaderStep::Attributes => ReaderStep::EnableProcessing,
        ReaderStep::EnableProcessing => ReaderStep::Reader,
        ReaderStep::Reader => ReaderStep::OutputType,
        ReaderStep::OutputType => ReaderStep::MajorType,
        ReaderStep::MajorType => ReaderStep::Subtype,
        ReaderStep::Subtype => if has_size {
            ReaderStep::FrameSize
        } else {
            ReaderStep::SetType
        },
        ReaderStep::FrameSize => ReaderStep::SetType,
        ReaderStep::SetType => ReaderStep::CurrentType,
        ReaderStep::CurrentType => ReaderStep::CurrentSize,
        ReaderStep::CurrentSize => ReaderStep::Ready,
        ReaderStep::Ready => ReaderStep::Ready,
    }
}

/// What follows the outcome of one step of setting the reader up. Only creating the
/// reader can be refused by the system-wide switch; every other failure is one of
/// setup.
pub fn open_reader(step: ReaderStep, outcome: Result<(), (i32, String)>, has_size: bool) -> (out:
    Result<ReaderStep, CaptureError>)
    ensures
        out == match outcome {
            Ok(_) => Ok::<ReaderStep, CaptureError>(next_reader_step(step, has_size)),
            Err(failure) => if step is Reader {
                Err(activation_error(failure))
            } else {
                Err(CaptureError::Setup(failure.1))
            },
        },
{
    match outcome {
        Ok(_) => Ok(
            match step {
                ReaderStep::Attributes => ReaderStep::EnableProcessing,
                ReaderStep::EnableProcessing => ReaderStep::Reader,
                ReaderStep::Reader => ReaderStep::OutputType,
                ReaderStep::OutputType => ReaderStep::MajorType,
                ReaderStep::MajorType => ReaderStep::Subtype,
                ReaderStep::Subtype => if has_size {
                    ReaderStep::FrameSize
                } else {
                    ReaderStep::SetType
                },
                ReaderStep::FrameSize => ReaderStep::SetType,
                ReaderStep::SetType => ReaderStep::CurrentType,
                ReaderStep::CurrentType => ReaderStep::CurrentSize,
                ReaderStep::CurrentSize => ReaderStep::Ready,
                ReaderStep::Ready => ReaderStep::Ready,
            },
        ),
        Err((code, text)) => if step == ReaderStep::Reader {
            Err(access_or_setup(code, text))
        } else {
            Err(CaptureError::Setup(text))
        },
    }
}

/// What reading a sample gave.
#[derive(Debug)]
pub enum SampleRead {
    /// The device is gone.
    Failed,
    /// There was no sample, or its bytes could not be had.
    Nothing,
    /// The bytes of a sample.
    Bytes(Vec<u8>),
}

/// One turn of the reader: a sample that fits the geometry becomes the newest frame
/// of the stream. The reader goes on until it is told to stop or the device is
/// gone.
pub fn reader_turn(
    stream: &mut CameraStream,
    read: &SampleRead,
    hint: StrideHint,
    stop: bool,
) -> (go_on: bool)
    requires
        4 * hint.width * hint.height <= usize::MAX,
    ensures
        go_on == (!stop && !(read is Failed)),
        match *read {
            SampleRead::Bytes(data) => if !stop && fits(data@.len() as int, hint) {
                &&& final(stream).waiting() matches Some(f)
                &&& f.width == hint.width
                &&& f.height == hint.height
                &&& f.bgra@ == sample_rows(data@, hint, hint.height as int)
                &&& final(stream).delivered() == if old(stream).delivered() == u64::MAX {
                    0
                } else {
                    (old(stream).delivered() + 1) as u64
                }
            } else {
                *final(stream) == *old(stream)
            },
            _ => *final(stream) == *old(stream),
        },
{
    if stop {
        return false;
    }
    match read {
        SampleRead::Failed => false,
        SampleRead::Nothing => true,
        SampleRead::Bytes(data) => {
            match sample_frame(data.as_slice(), hint) {
                Some(frame) => {
                    stream.store(frame);
                },
                None => {},
            }
            true
        },
    }
}

/// What the reader thread reported of its setup.
#[derive(Debug)]
pub enum SetupReport {
    /// The thread could not be started.
    NotStarted(String),
    /// The reader is set up.
    Ready,
    /// Setup failed.
    Failed(CaptureError),
    /// Nothing was reported in time.
    Silent,
}

/// Whether a stream has started; a thread that stays silent is told to stop.
pub fn start_stream(report: SetupReport) -> (out: Result<(), CaptureError>)
    ensures
        out == match report {
            SetupReport::NotStarted(text) => Err::<(), CaptureError>(CaptureError::Setup(text)),
            SetupReport::Ready => Ok(()),
            SetupReport::Failed(e) => Err(e),
            SetupReport::Silent => Err(CaptureError::Timeout),
        },
{
    match report {
        SetupReport::NotStarted(text) => Err(CaptureError::Setup(text)),
        SetupReport::Ready => Ok(()),
        SetupReport::Failed(e) => Err(e),
        SetupReport::Silent => Err(CaptureError::Timeout),
    }
}

/// One poll for a single frame.
pub fn capture_frame(
    started: Result<(), CaptureError>,
    frame: Option<Frame>,
    time_is_up: bool,
) -> (out: Capture)
    ensures
        out == match started {
            Err(e) => Capture::Done(Err(e)),
            Ok(_) => match frame {
                Some(f) => Capture::Done(Ok(f)),
                None => if time_is_up {
                    Capture::Done(Err(CaptureError::Timeout))
                } else {
                    Capture::Wait
                },
            },
        },
{
    crate::capture::capture_frame(started, frame, time_is_up)
}

} // verus!
