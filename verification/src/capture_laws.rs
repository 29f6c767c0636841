//! Laws of capturing: who may use the camera, in which order a session is opened, and
//! what a frame shows.

use vstd::prelude::*;

use crate::capture::{
    camera_access_granted, camera_authorization, capture_frame, decimated_frame, decimation,
    ensure_access, kept_row, kept_rows, must_ask, open_session, request_access, target_width,
    CameraAuthorization, CameraStream, Capture, CaptureError, Frame, SessionStep,
};

verus! {

// ── Permission ──────────────────────────────────────────────────────────────

/// Who is known to have refused is never asked again, who has agreed is not asked either,
/// and the camera is used exactly when it was agreed to.
pub proof fn permission_is_respected(
    status: i64,
    answer: bool,
    known: CameraAuthorization,
    granted: bool,
    ask: bool,
    access: Result<(), CaptureError>,
)
    requires
        call_ensures(camera_authorization, (status,), known),
        call_ensures(camera_access_granted, (status,), granted),
        call_ensures(must_ask, (status,), ask),
        call_ensures(ensure_access, (status, answer), access),
    ensures
        known == CameraAuthorization::Granted <==> status == 3,
        known == CameraAuthorization::Denied <==> (status == 1 || status == 2),
        granted <==> status == 3,
        ask <==> status != 1 && status != 2 && status != 3,
        access is Ok <==> granted || (ask && answer),
        access is Err ==> access == Err::<(), CaptureError>(CaptureError::AccessDenied),
{
}

/// The user's answer counts as soon as there is one; silence is a refusal, but only once the
/// time is up.
pub proof fn silence_is_a_refusal(answer: Option<bool>, time_is_up: bool, out: Option<bool>)
    requires
        call_ensures(request_access, (answer, time_is_up), out),
    ensures
        answer is Some ==> out == answer,
        answer is None && time_is_up ==> out == Some(false),
        out is None <==> answer is None && !time_is_up,
{
}

// ── Session setup ───────────────────────────────────────────────────────────

/// A session that follows the steps: each leads to the next with the outcome that it had.
pub open spec fn is_setup(steps: Seq<SessionStep>, outcomes: Seq<bool>, preview: bool) -> bool {
    &&& steps.len() == outcomes.len() + 1
    &&& steps[0] == SessionStep::Access
    &&& forall|i: int|
        0 <= i < outcomes.len() ==> leads_on(
            steps[i],
            #[trigger] outcomes[i],
            preview,
            steps[i + 1],
        )
}

/// The step with this outcome is followed by `next`.
pub open spec fn leads_on(
    step: SessionStep,
    outcome: bool,
    preview: bool,
    next: SessionStep,
) -> bool {
    call_ensures(open_session, (step, outcome, preview), Ok::<SessionStep, CaptureError>(next))
}

/// A session whose steps all succeed goes through every one of them once, in order, and then
/// runs. Only a preview asks for a resolution and is mirrored.
pub proof fn sessions_open_in_order(
    steps: Seq<SessionStep>,
    outcomes: Seq<bool>,
    preview: bool,
)
    requires
        is_setup(steps, outcomes, preview),
        forall|i: int| 0 <= i < outcomes.len() ==> #[trigger] outcomes[i],
        outcomes.len() == if preview {
            11int
        } else {
            9
        },
    ensures
        preview ==> steps == seq![
            SessionStep::Access,
            SessionStep::Device,
            SessionStep::Reset,
            SessionStep::Session,
            SessionStep::Input,
            SessionStep::AddInput,
            SessionStep::Preset,
            SessionStep::Delegate,
            SessionStep::AddOutput,
            SessionStep::Mirror,
            SessionStep::Start,
            SessionStep::Running,
        ],
        !preview ==> steps == seq![
            SessionStep::Access,
            SessionStep::Device,
            SessionStep::Reset,
            SessionStep::Session,
            SessionStep::Input,
            SessionStep::AddInput,
            SessionStep::Delegate,
            SessionStep::AddOutput,
            SessionStep::Start,
            SessionStep::Running,
        ],
{
    assert(leads_on(steps[0], outcomes[0], preview, steps[1]));
    assert(leads_on(steps[1], outcomes[1], preview, steps[2]));
    assert(leads_on(steps[2], outcomes[2], preview, steps[3]));
    assert(leads_on(steps[3], outcomes[3], preview, steps[4]));
    assert(leads_on(steps[4], outcomes[4], preview, steps[5]));
    assert(leads_on(steps[5], outcomes[5], preview, steps[6]));
    assert(leads_on(steps[6], outcomes[6], preview, steps[7]));
    assert(leads_on(steps[7], outcomes[7], preview, steps[8]));
    assert(leads_on(steps[8], outcomes[8], preview, steps[9]));
    if preview {
        assert(leads_on(steps[9], outcomes[9], preview, steps[10]));
        assert(leads_on(steps[10], outcomes[10], preview, steps[11]));
    }
}

/// The step was taken before the `n`-th and succeeded.
pub open spec fn succeeded_before(
    steps: Seq<SessionStep>,
    outcomes: Seq<bool>,
    step: SessionStep,
    n: int,
) -> bool {
    exists|i: int| 0 <= i < n && #[trigger] steps[i] == step && outcomes[i]
}

/// Whatever fails on the way, no session starts before the camera was found and both its
/// input and its output were added to it.
pub proof fn sessions_start_wired(
    steps: Seq<SessionStep>,
    outcomes: Seq<bool>,
    preview: bool,
    n: int,
)
    requires
        is_setup(steps, outcomes, preview),
        0 <= n < steps.len(),
    ensures
        steps[n] == SessionStep::Start || steps[n] == SessionStep::Running ==> {
            &&& succeeded_before(steps, outcomes, SessionStep::Access, n)
            &&& succeeded_before(steps, outcomes, SessionStep::Device, n)
            &&& succeeded_before(steps, outcomes, SessionStep::Session, n)
            &&& succeeded_before(steps, outcomes, SessionStep::Input, n)
            &&& succeeded_before(steps, outcomes, SessionStep::AddInput, n)
            &&& succeeded_before(steps, outcomes, SessionStep::Delegate, n)
            &&& succeeded_before(steps, outcomes, SessionStep::AddOutput, n)
        },
{
    lemma_wired(steps, outcomes, preview, n);
}

/// How many of the steps that can fail have come before a step.
spec fn depth(step: SessionStep) -> int {
    match step {
        SessionStep::Access => 0,
        SessionStep::Device => 1,
        SessionStep::Reset => 2,
        SessionStep::Session => 2,
        SessionStep::Input => 3,
        SessionStep::AddInput => 4,
        SessionStep::Preset => 5,
        SessionStep::Delegate => 5,
        SessionStep::AddOutput => 6,
        SessionStep::Mirror => 7,
        SessionStep::Start => 7,
        SessionStep::Running => 7,
    }
}

proof fn lemma_wired(steps: Seq<SessionStep>, outcomes: Seq<bool>, preview: bool, n: int)
    requires
        is_setup(steps, outcomes, preview),
        0 <= n < steps.len(),
    ensures
        depth(steps[n]) > 0 ==> succeeded_before(steps, outcomes, SessionStep::Access, n),
        depth(steps[n]) > 1 ==> succeeded_before(steps, outcomes, SessionStep::Device, n),
        depth(steps[n]) > 2 ==> succeeded_before(steps, outcomes, SessionStep::Session, n),
        depth(steps[n]) > 3 ==> succeeded_before(steps, outcomes, SessionStep::Input, n),
        depth(steps[n]) > 4 ==> succeeded_before(steps, outcomes, SessionStep::AddInput, n),
        depth(steps[n]) > 5 ==> succeeded_before(steps, outcomes, SessionStep::Delegate, n),
        depth(steps[n]) > 6 ==> succeeded_before(steps, outcomes, SessionStep::AddOutput, n),
    decreases n,
{
    if n > 0 {
        let m = n - 1;
        lemma_wired(steps, outcomes, preview, m);
        assert(leads_on(steps[m], outcomes[m], preview, steps[m + 1]));
        assert(forall|step: SessionStep|
            succeeded_before(steps, outcomes, step, m) ==> #[trigger] succeeded_before(
                steps,
                outcomes,
                step,
                n,
            ));
        assert(outcomes[m] ==> succeeded_before(steps, outcomes, steps[m], n));
    }
}

/// A step that fails ends the attempt with an error that names what failed. Setting the
/// resolution and mirroring are best effort: without them the session goes on.
pub proof fn failed_steps_are_named(
    step: SessionStep,
    preview: bool,
    out: Result<SessionStep, CaptureError>,
)
    requires
        call_ensures(open_session, (step, false, preview), out),
    ensures
        step == SessionStep::Access ==> out == Err::<SessionStep, CaptureError>(
            CaptureError::AccessDenied,
        ),
        step == SessionStep::Device ==> out == Err::<SessionStep, CaptureError>(
            CaptureError::NotFound,
        ),
        step == SessionStep::Session ==> (out matches Err(CaptureError::Setup(what)) && what@
            == "AVCaptureSession"@),
        step == SessionStep::Input ==> (out matches Err(CaptureError::Setup(what)) && what@
            == "AVCaptureDeviceInput"@),
        step == SessionStep::AddInput ==> (out matches Err(CaptureError::Setup(what)) && what@
            == "session rejected input"@),
        step == SessionStep::Delegate ==> (out matches Err(CaptureError::Setup(what)) && what@
            == "delegate class"@),
        step == SessionStep::AddOutput ==> (out matches Err(CaptureError::Setup(what)) && what@
            == "session rejected output"@),
        step == SessionStep::Preset ==> out == Ok::<SessionStep, CaptureError>(
            SessionStep::Delegate,
        ),
        step == SessionStep::Mirror ==> out == Ok::<SessionStep, CaptureError>(SessionStep::Start),
        step == SessionStep::Start ==> out == Ok::<SessionStep, CaptureError>(
            SessionStep::Running,
        ),
{
}

/// The failures of a capture read as what they are.
pub proof fn capture_failures_are_told_apart(e: CaptureError, text: String)
    requires
        call_ensures(CaptureError::message, (&e,), text),
    ensures
        e == CaptureError::Unsupported ==> text@ == "camera capture is only implemented on macOS"@,
        e == CaptureError::AccessDenied ==> text@ == "camera access denied"@,
        e == CaptureError::NotFound ==> text@ == "camera not found"@,
        e == CaptureError::Timeout ==> text@ == "no camera frame arrived in time"@,
        e matches CaptureError::Setup(what) ==> text@ == "camera setup failed: "@ + what@,
{
}

// ── Frames ──────────────────────────────────────────────────────────────────

proof fn lemma_row(
    pixels: Seq<u8>,
    bytes_per_row: int,
    step: int,
    columns: int,
    n: int,
    y: int,
    i: int,
)
    requires
        0 <= y < n,
        0 <= i < 4 * columns,
        columns >= 0,
    ensures
        kept_rows(pixels, bytes_per_row, step, columns, n).len() == n * (4 * columns),
        0 <= y * (4 * columns) + i < n * (4 * columns),
        kept_rows(pixels, bytes_per_row, step, columns, n)[y * (4 * columns) + i]
            == pixels[y * step * bytes_per_row + (i / 4) * step * 4 + i % 4],
    decreases n,
{
    lemma_rows_len(pixels, bytes_per_row, step, columns, n);
    lemma_rows_len(pixels, bytes_per_row, step, columns, n - 1);
    let wide = 4 * columns;
    assert(0 <= y * wide + i < n * wide && (y < n - 1 ==> y * wide + i < (n - 1) * wide))
        by (nonlinear_arith)
        requires
            0 <= y < n,
            0 <= i < wide,
    ;
    if y < n - 1 {
        lemma_row(pixels, bytes_per_row, step, columns, n - 1, y, i);
    } else {
        assert(kept_row(pixels, bytes_per_row, step, columns, n - 1)[i] == pixels[y * step
            * bytes_per_row + (i / 4) * step * 4 + i % 4]);
    }
}

proof fn lemma_rows_len(pixels: Seq<u8>, bytes_per_row: int, step: int, columns: int, n: int)
    requires
        n >= 0,
        columns >= 0,
    ensures
        kept_rows(pixels, bytes_per_row, step, columns, n).len() == n * (4 * columns),
    decreases n,
{
    if n > 0 {
        lemma_rows_len(pixels, bytes_per_row, step, columns, n - 1);
        let wide = 4 * columns;
        assert((n - 1) * wide + wide == n * wide) by (nonlinear_arith);
    } else {
        assert(n * (4 * columns) == 0) by (nonlinear_arith)
            requires
                n == 0,
        ;
    }
}

/// A frame shows the delivered picture: pixel for pixel where the picture fits the target,
/// and otherwise every `step`-th pixel of every `step`-th row, where `step` is the least that
/// makes it fit. Only a picture without a pixel left gives no frame.
pub proof fn frames_show_the_picture(
    pixels: &[u8],
    bytes_per_row: usize,
    width: usize,
    height: usize,
    target: usize,
    frame: Option<Frame>,
) -> (step: int)
    requires
        call_ensures(decimated_frame, (pixels, bytes_per_row, width, height, target), frame),
    ensures
        step >= 1,
        target == 0 || width <= target ==> step == 1,
        target > 0 && width > target ==> step * target >= width && (step - 1) * target < width,
        frame is None <==> width < step || height < step,
        frame matches Some(f) ==> {
            &&& f.width * step <= width < (f.width + 1) * step
            &&& f.height * step <= height < (f.height + 1) * step
            &&& f.bgra@.len() == f.height * (4 * f.width)
            &&& forall|x: int, y: int, channel: int|
                0 <= x < f.width && 0 <= y < f.height && 0 <= channel < 4
                    ==> #[trigger] shows(f, x, y, channel) == pixels@[y * step * bytes_per_row + x
                    * step * 4 + channel]
        },
{
    let step = decimation(width as int, target as int);
    if target > 0 && width > target {
        assert(step * target >= width && (step - 1) * target < width && step >= 1)
            by (nonlinear_arith)
            requires
                target > 0,
                width > target,
                step == (width + target - 1) / target as int,
        ;
    }
    let columns = width as int / step;
    let rows = height as int / step;
    assert(columns * step <= width < (columns + 1) * step && (columns == 0 <==> width < step)
        && columns >= 0) by (nonlinear_arith)
        requires
            step >= 1,
            columns == width as int / step,
            width >= 0,
    ;
    assert(rows * step <= height < (rows + 1) * step && (rows == 0 <==> height < step) && rows >= 0)
        by (nonlinear_arith)
        requires
            step >= 1,
            rows == height as int / step,
            height >= 0,
    ;
    if let Some(f) = frame {
        lemma_rows_len(pixels@, bytes_per_row as int, step, columns, rows);
        assert forall|x: int, y: int, channel: int|
            0 <= x < f.width && 0 <= y < f.height && 0 <= channel < 4 implies #[trigger] shows(
            f,
            x,
            y,
            channel,
        ) == pixels@[y * step * bytes_per_row + x * step * 4 + channel] by {
            lemma_row(
                pixels@,
                bytes_per_row as int,
                step,
                columns,
                rows,
                y,
                4 * x + channel,
            );
            assert((4 * x + channel) / 4 == x && (4 * x + channel) % 4 == channel);
        }
    }
    step
}

/// One of the four bytes of a frame's pixel.
pub open spec fn shows(frame: Frame, x: int, y: int, channel: int) -> u8 {
    frame.bgra@[y * (4 * frame.width) + (4 * x + channel)]
}

/// A preview is at most 1280 pixels wide; a snapshot is kept as it is.
pub proof fn previews_are_narrowed(preview: bool, width: u32)
    requires
        call_ensures(target_width, (preview,), width),
    ensures
        preview ==> width == 1280,
        !preview ==> width == 0,
{
}

/// A delivered frame is there to be read, in place of an older one, and the counter goes on
/// by one, round after the largest number.
pub proof fn delivered_frames_can_be_read(
    delivering: &mut CameraStream,
    frame: Frame,
    reading: CameraStream,
    read: Option<&Frame>,
)
    requires
        call_ensures(CameraStream::store, (delivering, frame), ()),
        reading == *final(delivering),
        call_ensures(CameraStream::latest_frame, (&reading,), read),
    ensures
        read matches Some(f) && *f == frame,
        final(delivering).delivered()
            == (old(delivering).delivered() + 1) % 0x1_0000_0000_0000_0000,
        final(delivering).delivered() != old(delivering).delivered(),
{
}

/// A frame is taken once: the first to take it gets it, and nothing is left until another
/// is delivered. Taking and forgetting frames does not move the counter.
pub proof fn frames_are_taken_once(
    first: &mut CameraStream,
    taken: Option<Frame>,
    second: &mut CameraStream,
    again: Option<Frame>,
    forgetting: &mut CameraStream,
)
    requires
        call_ensures(CameraStream::take_frame, (first,), taken),
        *old(second) == *final(first),
        call_ensures(CameraStream::take_frame, (second,), again),
        call_ensures(CameraStream::reset, (forgetting,), ()),
    ensures
        taken == old(first).waiting(),
        again is None,
        final(second).delivered() == old(first).delivered(),
        final(forgetting).waiting() is None,
        final(forgetting).delivered() == old(forgetting).delivered(),
{
}

/// A poll for a single frame gives the frame as soon as there is one, and a timeout only
/// when the time is up without one. A session that did not open gives its own error.
pub proof fn polls_end(
    opened: Result<(), CaptureError>,
    frame: Option<Frame>,
    time_is_up: bool,
    out: Capture,
)
    requires
        call_ensures(capture_frame, (opened, frame, time_is_up), out),
    ensures
        opened matches Err(e) ==> out == Capture::Done(Err(e)),
        opened is Ok && frame is Some ==> out == Capture::Done(Ok(frame->0)),
        opened is Ok && frame is None && time_is_up ==> out == Capture::Done(
            Err(CaptureError::Timeout),
        ),
        out is Wait <==> opened is Ok && frame is None && !time_is_up,
{
}

} // verus!
