//! Camera capture: permission, session setup, and frames.
//!
//! Frames are kept in BGRA order, tightly packed. A preview decimates frames that
//! are wider than it can show; a snapshot keeps full resolution.

use vstd::prelude::*;
use vstd::string::*;

verus! {

/// One decoded camera frame, tightly packed BGRA.
#[derive(Debug, PartialEq, Eq)]
pub struct Frame {
    /// Pixels per row.
    pub width: u32,
    /// Rows.
    pub height: u32,
    /// Four bytes per pixel, row by row.
    pub bgra: Vec<u8>,
}

impl Clone for Frame {
    fn clone(&self) -> (out: Self)
        ensures
            out.width == self.width,
            out.height == self.height,
            out.bgra@ == self.bgra@,
    {
        let mut bgra: Vec<u8> = Vec::new();
        bgra.extend_from_slice(self.bgra.as_slice());
        assert(bgra@ =~= self.bgra@);
        Frame { width: self.width, height: self.height, bgra }
    }
}

/// Why a capture attempt failed.
#[derive(Debug, PartialEq, Eq)]
pub enum CaptureError {
    /// Capture has no backend on this platform.
    Unsupported,
    /// The camera may not be used.
    AccessDenied,
    /// No camera has this id.
    NotFound,
    /// No frame arrived in time.
    Timeout,
    /// The platform could not set capture up.
    Setup(String),
}

impl Clone for CaptureError {
    fn clone(&self) -> (out: Self)
        ensures
            out == *self,
    {
        match self {
            CaptureError::Unsupported => CaptureError::Unsupported,
            CaptureError::AccessDenied => CaptureError::AccessDenied,
            CaptureError::NotFound => CaptureError::NotFound,
            CaptureError::Timeout => CaptureError::Timeout,
            CaptureError::Setup(s) => CaptureError::Setup(s.clone()),
        }
    }
}

impl CaptureError {
    /// The message as characters.
    pub open spec fn message_text(self) -> Seq<char> {
        match self {
            CaptureError::Unsupported => "camera capture is only implemented on macOS"@,
            CaptureError::AccessDenied => "camera access denied"@,
            CaptureError::NotFound => "camera not found"@,
            CaptureError::Timeout => "no camera frame arrived in time"@,
            CaptureError::Setup(s) => "camera setup failed: "@ + s@,
        }
    }

    /// The message for the user.
    pub fn message(&self) -> (out: String)
        ensures
            out@ == self.message_text(),
    {
        match self {
            CaptureError::Unsupported => "camera capture is only implemented on macOS".to_string(),
            CaptureError::AccessDenied => "camera access denied".to_string(),
            CaptureError::NotFound => "camera not found".to_string(),
            CaptureError::Timeout => "no camera frame arrived in time".to_string(),
            CaptureError::Setup(s) => {
                let mut out: String = "camera setup failed: ".to_string();
                out.append(s.as_str());
                out
            },
        }
    }
}

// ── Permission ──────────────────────────────────────────────────────────────

/// Camera permission, as far as it is known.
#[derive(Debug, Clone, Copy, PartialEq, Eq, Structural)]
pub enum CameraAuthorization {
    /// The camera may be used.
    Granted,
    /// The user or a policy refused.
    Denied,
    /// The user has not been asked yet.
    Undetermined,
}

/// The permission that the platform's status number stands for.
pub open spec fn authorization_of(status: i64) -> CameraAuthorization {
    if status == 3 {
        CameraAuthorization::Granted
    } else if status == 1 || status == 2 {
        CameraAuthorization::Denied
    } else {
        CameraAuthorization::Undetermined
    }
}

/// Camera permission from the platform's status number, without asking the user.
#[must_use]
pub fn camera_authorization(status: i64) -> (out: CameraAuthorization)
    ensures
        out == authorization_of(status),
{
    if status == 3 {
        CameraAuthorization::Granted
    } else if status == 1 || status == 2 {
        CameraAuthorization::Denied
    } else {
        CameraAuthorization::Undetermined
    }
}

/// Whether the camera may be used right now, without asking the user.
#[must_use]
pub fn camera_access_granted(status: i64) -> (yes: bool)
    ensures
        yes == (status == 3),
{
    camera_authorization(status) == CameraAuthorization::Granted
}

/// Whether the user has to be asked before the camera can be used.
pub fn must_ask(status: i64) -> (yes: bool)
    ensures
        yes == (authorization_of(status) == CameraAuthorization::Undetermined),
{
    camera_authorization(status) == CameraAuthorization::Undetermined
}

/// One poll for the user's answer: the answer once there is one, a refusal when the
/// time is up without one, or else another poll.
pub fn request_access(answer: Option<bool>, time_is_up: bool) -> (granted: Option<bool>)
    ensures
        granted == match answer {
            Some(yes) => Some(yes),
            None => if time_is_up {
                Some(false)
            } else {
                None
            },
        },
{
    match answer {
        Some(yes) => Some(yes),
        None => if time_is_up {
            Some(false)
        } else {
            None
        },
    }
}

/// Whether the camera may be used, given the status and the answer of a user who
/// had to be asked.
pub fn ensure_access(status: i64, answer: bool) -> (out: Result<(), CaptureError>)
    ensures
        out == match authorization_of(status) {
            CameraAuthorization::Granted => Ok::<(), CaptureError>(()),
            CameraAuthorization::Undetermined => if answer {
                Ok::<(), CaptureError>(())
            } else {
                Err(CaptureError::AccessDenied)
            },
            CameraAuthorization::Denied => Err(CaptureError::AccessDenied),
        },
{
    match camera_authorization(status) {
        CameraAuthorization::Granted => Ok(()),
        CameraAuthorization::Undetermined => if answer {
            Ok(())
        } else {
            Err(CaptureError::AccessDenied)
        },
        CameraAuthorization::Denied => Err(CaptureError::AccessDenied),
    }
}

// ── Session setup ───────────────────────────────────────────────────────────

/// The steps of opening a capture session.
#[derive(Debug, Clone, Copy, PartialEq, Eq, Structural)]
pub enum SessionStep {
    /// Make sure that the camera may be used.
    Access,
    /// Find the camera.
    Device,
    /// Forget the last frame and set the preview width.
    Reset,
    /// Create the session.
    Session,
    /// Create its input.
    Input,
    /// Add the input.
    AddInput,
    /// Ask for the preview resolution.
    Preset,
    /// Create the frame delegate.
    Delegate,
    /// Add the output.
    AddOutput,
    /// Mirror the picture.
    Mirror,
    /// Start the session.
    Start,
    /// The session runs.
    Running,
}

/// The step after `step`. Only a preview has a preset and is mirrored.
pub open spec fn next_step(step: SessionStep, preview: bool) -> SessionStep {
    match step {
        SessionStep::Access => SessionStep::Device,
        SessionStep::Device => SessionStep::Reset,
        SessionStep::Reset => SessionStep::Session,
        SessionStep::Session => SessionStep::Input,
        SessionStep::Input => SessionStep::AddInput,
        SessionStep::AddInput => if preview {
            SessionStep::Preset
        } else {
            SessionStep::Delegate
        },
        SessionStep::Preset => SessionStep::Delegate,
        SessionStep::Delegate => SessionStep::AddOutput,
        SessionStep::AddOutput => if preview {
            SessionStep::Mirror
        } else {
            SessionStep::Start
        },
        SessionStep::Mirror => SessionStep::Start,
        SessionStep::Start => SessionStep::Running,
        SessionStep::Running => SessionStep::Running,
    }
}

/// `e` is the error of a step that failed. Steps without an error of their own
/// are best effort.
pub open spec fn step_error(step: SessionStep, e: CaptureError) -> bool {
    match step {
        SessionStep::Access => e == CaptureError::AccessDenied,
        SessionStep::Device => e == CaptureError::NotFound,
        SessionStep::Session => e matches CaptureError::Setup(s) && s@ == "AVCaptureSession"@,
        SessionStep::Input => e matches CaptureError::Setup(s) && s@ == "AVCaptureDeviceInput"@,
        SessionStep::AddInput => e matches CaptureError::Setup(s) && s@
            == "session rejected input"@,
        SessionStep::Delegate => e matches CaptureError::Setup(s) && s@ == "delegate class"@,
        SessionStep::AddOutput => e matches CaptureError::Setup(s) && s@
            == "session rejected output"@,
        _ => false,
    }
}

/// The step can fail the session.
pub open spec fn can_fail(step: SessionStep) -> bool {
    match step {
        SessionStep::Reset | SessionStep::Preset | SessionStep::Mirror | SessionStep::Start
        | SessionStep::Running => false,
        _ => true,
    }
}

/// What follows the outcome of one step of opening a session: the next step, or
/// the error that ends the attempt.
pub fn open_session(step: SessionStep, ok: bool, preview: bool) -> (out: Result<
    SessionStep,
    CaptureError,
>)
    ensures
        if ok || !can_fail(step) {
            out == Ok::<SessionStep, CaptureError>(next_step(step, preview))
        } else {
            out matches Err(e) && step_error(step, e)
        },
{
    if !ok {
        match step {
            SessionStep::Access => {
                return Err(CaptureError::AccessDenied);
            },
            SessionStep::Device => {
                return Err(CaptureError::NotFound);
            },
            SessionStep::Session => {
                return Err(CaptureError::Setup("AVCaptureSession".to_string()));
            },
            SessionStep::Input => {
                return Err(CaptureError::Setup("AVCaptureDeviceInput".to_string()));
            },
            SessionStep::AddInput => {
                return Err(CaptureError::Setup("session rejected input".to_string()));
            },
            SessionStep::Delegate => {
                return Err(CaptureError::Setup("delegate class".to_string()));
            },
            SessionStep::AddOutput => {
                return Err(CaptureError::Setup("session rejected output".to_string()));
            },
            _ => {},
        }
    }
    Ok(
        match step {
            SessionStep::Access => SessionStep::Device,
            SessionStep::Device => SessionStep::Reset,
            SessionStep::Reset => SessionStep::Session,
            SessionStep::Session => SessionStep::Input,
            SessionStep::Input => SessionStep::AddInput,
            SessionStep::AddInput => if preview {
                SessionStep::Preset
            } else {
                SessionStep::Delegate
            },
            SessionStep::Preset => SessionStep::Delegate,
            SessionStep::Delegate => SessionStep::AddOutput,
            SessionStep::AddOutput => if preview {
                SessionStep::Mirror
            } else {
                SessionStep::Start
            },
            SessionStep::Mirror => SessionStep::Start,
            SessionStep::Start => SessionStep::Running,
            SessionStep::Running => SessionStep::Running,
        },
    )
}

/// The widest frame that a session delivers; zero for full resolution.
pub fn target_width(preview: bool) -> (width: u32)
    ensures
        width == if preview {
            1280u32
        } else {
            0u32
        },
{
    if preview {
        1280
    } else {
        0
    }
}

// ── Frames ──────────────────────────────────────────────────────────────────

/// Every how many pixels one is kept, along both axes: the smallest step that
/// brings the width to the target or below.
pub open spec fn decimation(width: int, target: int) -> int {
    if target > 0 && width > target {
        (width + target - 1) / target
    } else {
        1
    }
}

/// Row `y` of a decimated picture: every `step`-th pixel of every `step`-th row.
pub open spec fn kept_row(
    pixels: Seq<u8>,
    bytes_per_row: int,
    step: int,
    columns: int,
    y: int,
) -> Seq<u8> {
    Seq::new(
        (4 * columns) as nat,
        |i: int| pixels[y * step * bytes_per_row + (i / 4) * step * 4 + i % 4],
    )
}

/// The first `n` rows of a decimated picture.
pub open spec fn kept_rows(
    pixels: Seq<u8>,
    bytes_per_row: int,
    step: int,
    columns: int,
    n: int,
) -> Seq<u8>
    decreases n,
{
    if n <= 0 {
        Seq::empty()
    } else {
        kept_rows(pixels, bytes_per_row, step, columns, n - 1) + kept_row(
            pixels,
            bytes_per_row,
            step,
            columns,
            n - 1,
        )
    }
}

/// A picture whose rows are `bytes_per_row` apart holds all its pixels.
pub open spec fn holds_picture(len: int, bytes_per_row: int, width: int, height: int) -> bool {
    &&& bytes_per_row >= 4 * width
    &&& height == 0 || len >= (height - 1) * bytes_per_row + 4 * width
}

proof fn lemma_kept_in_range(
    len: int,
    bytes_per_row: int,
    width: int,
    height: int,
    step: int,
    x: int,
    y: int,
)
    requires
        holds_picture(len, bytes_per_row, width, height),
        step >= 1,
        0 <= width,
        0 <= x < width / step,
        0 <= y < height / step,
    ensures
        0 <= y * step * bytes_per_row,
        0 <= x * step * 4,
        0 <= y * step,
        0 <= x * step,
        y * step * bytes_per_row + x * step * 4 + 4 <= len,
{
    assert(x * step <= width - step) by (nonlinear_arith)
        requires
            0 <= x < width / step,
            step >= 1,
            0 <= width,
    ;
    assert(y * step <= height - step) by (nonlinear_arith)
        requires
            0 <= y < height / step,
            step >= 1,
    ;
    assert(0 <= x * step) by (nonlinear_arith)
        requires
            0 <= x,
            step >= 1,
    ;
    assert(0 <= y * step) by (nonlinear_arith)
        requires
            0 <= y,
            step >= 1,
    ;
    let row = y * step;
    assert(row <= height - 1);
    assert(0 <= row * bytes_per_row <= (height - 1) * bytes_per_row) by (nonlinear_arith)
        requires
            0 <= row <= height - 1,
            bytes_per_row >= 0,
    ;
}

/// The frame of a delivered picture, decimated to the target width.
///
/// `pixels` holds `height` rows of BGRA pixels, `bytes_per_row` apart. A picture
/// that decimates to nothing gives no frame.
pub fn decimated_frame(
    pixels: &[u8],
    bytes_per_row: usize,
    width: usize,
    height: usize,
    target: usize,
) -> (frame: Option<Frame>)
    requires
        holds_picture(pixels@.len() as int, bytes_per_row as int, width as int, height as int),
        width <= u32::MAX,
        height <= u32::MAX,
    ensures
        ({
            let step = decimation(width as int, target as int);
            let columns = width as int / step;
            let rows = height as int / step;
            match frame {
                Some(f) => columns > 0 && rows > 0 && f.width == columns && f.height == rows
                    && f.bgra@ == kept_rows(pixels@, bytes_per_row as int, step, columns, rows),
                None => columns == 0 || rows == 0,
            }
        }),
{
    let step: usize = if target > 0 && width > target {
        proof {
            assert((width + target - 1) / target as int == (width - 1) / target as int + 1)
                by (nonlinear_arith)
                requires
                    target > 0,
                    width > target,
            ;
            assert((width - 1) / target as int <= width - 1) by (nonlinear_arith)
                requires
                    target > 0,
                    width > target,
            ;
            assert((width - 1) / target as int >= 0) by (nonlinear_arith)
                requires
                    target > 0,
                    width > target,
            ;
        }
        (width - 1) / target + 1
    } else {
        1
    };
    assert(step == decimation(width as int, target as int));
    assert(step >= 1);
    let columns: usize = width / step;
    let rows: usize = height / step;
    if columns == 0 || rows == 0 {
        return None;
    }
    proof {
        assert(columns <= width && rows <= height) by (nonlinear_arith)
            requires
                step >= 1,
                columns == width / step,
                rows == height / step,
        ;
    }
    let mut bgra: Vec<u8> = Vec::new();
    let mut y: usize = 0;
    while y < rows
        invariant
            y <= rows,
            step >= 1,
            columns == width / step,
            rows == height / step,
            holds_picture(pixels@.len() as int, bytes_per_row as int, width as int, height as int),
            bgra@ == kept_rows(
                pixels@,
                bytes_per_row as int,
                step as int,
                columns as int,
                y as int,
            ),
        decreases rows - y,
    {
        let ghost before = bgra@;
        let ghost row = kept_row(
            pixels@,
            bytes_per_row as int,
            step as int,
            columns as int,
            y as int,
        );
        let mut x: usize = 0;
        while x < columns
            invariant
                x <= columns,
                y < rows,
                step >= 1,
                columns == width / step,
                rows == height / step,
                holds_picture(
                    pixels@.len() as int,
                    bytes_per_row as int,
                    width as int,
                    height as int,
                ),
                row == kept_row(
                    pixels@,
                    bytes_per_row as int,
                    step as int,
                    columns as int,
                    y as int,
                ),
                bgra@ == before + row.take(4 * x),
            decreases columns - x,
        {
            proof {
                lemma_kept_in_range(
                    pixels@.len() as int,
                    bytes_per_row as int,
                    width as int,
                    height as int,
                    step as int,
                    x as int,
                    y as int,
                );
            }
            let len: usize = pixels.len();
            assert(y * step * bytes_per_row + x * step * 4 + 4 <= len);
            let line: usize = kept_line(y, step, bytes_per_row, len);
            let column: usize = x * step;
            let at: usize = line + column * 4;
            bgra.push(pixels[at]);
            bgra.push(pixels[at + 1]);
            bgra.push(pixels[at + 2]);
            bgra.push(pixels[at + 3]);
            proof {
                assert(row[4 * x] == pixels@[at as int]);
                assert(row[4 * x + 1] == pixels@[at + 1]);
                assert(row[4 * x + 2] == pixels@[at + 2]);
                assert(row[4 * x + 3] == pixels@[at + 3]);
                assert(row.take(4 * x + 4) =~= row.take(4 * x).push(row[4 * x]).push(
                    row[4 * x + 1],
                ).push(row[4 * x + 2]).push(row[4 * x + 3]));
            }
            x = x + 1;
        }
        assert(row.take(4 * columns) =~= row);
        y = y + 1;
    }
    Some(Frame { width: columns as u32, height: rows as u32, bgra })
}

fn kept_line(y: usize, step: usize, bytes_per_row: usize, len: usize) -> (at: usize)
    requires
        y * step * bytes_per_row <= len,
        bytes_per_row >= 4,
    ensures
        at == y * step * bytes_per_row,
{
    assert(y * step <= len) by (nonlinear_arith)
        requires
            y * step * bytes_per_row <= len,
            bytes_per_row >= 4,
            y * step >= 0,
    ;
    let row: usize = y * step;
    row * bytes_per_row
}

/// A decimated frame is never wider than its target.
pub proof fn decimated_frames_fit(width: int, target: int)
    requires
        width >= 0,
        target > 0,
    ensures
        width / decimation(width, target) <= target,
        decimation(width, target) >= 1,
{
    let step = decimation(width, target);
    if width > target {
        assert(step == (width + target - 1) / target);
        assert(step * target >= width && step >= 1) by (nonlinear_arith)
            requires
                target > 0,
                width > target,
                step == (width + target - 1) / target,
        ;
        assert(width / step <= target) by (nonlinear_arith)
            requires
                step * target >= width,
                step >= 1,
                width >= 0,
        ;
    }
}

/// The frames that a session has delivered: the last one, and how many there
/// were.
#[derive(Debug)]
pub struct CameraStream {
    latest: Option<Frame>,
    generation: u64,
}

impl CameraStream {
    /// The frame that waits to be read.
    pub closed spec fn waiting(self) -> Option<Frame> {
        self.latest
    }

    /// How many frames were delivered, going round after the largest number.
    pub closed spec fn delivered(self) -> u64 {
        self.generation
    }

    /// A stream before its first frame.
    pub fn new() -> (out: Self)
        ensures
            out.waiting() is None,
            out.delivered() == 0,
    {
        CameraStream { latest: None, generation: 0 }
    }

    /// Deliver a frame, in place of one that was not read.
    pub fn store(&mut self, frame: Frame)
        ensures
            final(self).waiting() == Some(frame),
            final(self).delivered() == if old(self).delivered() == u64::MAX {
                0
            } else {
                (old(self).delivered() + 1) as u64
            },
    {
        self.latest = Some(frame);
        if self.generation == u64::MAX {
            self.generation = 0;
        } else {
            self.generation = self.generation + 1;
        }
    }

    /// Forget the last frame, before a session starts.
    pub fn reset(&mut self)
        ensures
            final(self).waiting() is None,
            final(self).delivered() == old(self).delivered(),
    {
        self.latest = None;
    }

    /// The most recently delivered frame, or `None` before the first arrives.
    #[must_use]
    pub fn latest_frame(&self) -> (frame: Option<&Frame>)
        ensures
            match frame {
                Some(f) => self.waiting() == Some(*f),
                None => self.waiting() is None,
            },
    {
        match &self.latest {
            Some(f) => Some(f),
            None => None,
        }
    }

    /// Take the most recent frame out; the next delivered one takes its place.
    #[must_use]
    pub fn take_frame(&mut self) -> (frame: Option<Frame>)
        ensures
            frame == old(self).waiting(),
            final(self).waiting() is None,
            final(self).delivered() == old(self).delivered(),
    {
        self.latest.take()
    }

    /// A counter that changes with every delivered frame, so that a poller can
    /// tell a new frame from a repeated one.
    #[must_use]
    pub fn frame_generation(&self) -> (n: u64)
        ensures
            n == self.delivered(),
    {
        self.generation
    }
}

/// What a poll for a single frame gives.
#[derive(Debug)]
pub enum Capture {
    /// The attempt is over.
    Done(Result<Frame, CaptureError>),
    /// Poll again.
    Wait,
}

/// One poll for a single frame: the error of opening the session, a frame that
/// has arrived, a timeout when there is none and the time is up, or else another
/// poll.
pub fn capture_frame(
    opened: Result<(), CaptureError>,
    frame: Option<Frame>,
    time_is_up: bool,
) -> (out: Capture)
    ensures
        out == match opened {
            Err(e) => Capture::Done(Err(e)),
            Ok(_) => match frame {
                Some(f) => Capture::Done(Ok(f)),
                None => if time_is_up {
                    Capture::Done(Err(CaptureError::Timeout))
                } else {
                    Capture::Wait
                },
            },
        },
{
    match opened {
        Err(e) => Capture::Done(Err(e)),
        Ok(_) => match frame {
            Some(f) => Capture::Done(Ok(f)),
            None => if time_is_up {
                Capture::Done(Err(CaptureError::Timeout))
            } else {
                Capture::Wait
            },
        },
    }
}

} // verus!
