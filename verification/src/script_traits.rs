//! Plain message and event classification values shared with the
//! surrounding engine: the pipeline-level signals around a layout pass
//! (resizes, animation ticks, document lifecycle) and input-event
//! classifications.  Only the plain value types live here; the transport
//! that carries them between processes is the embedding engine's concern.

use vstd::prelude::*;

verus! {

/// Whether a browsing context is discarded.
#[derive(Clone, Copy, Debug, PartialEq, Eq, Structural)]
pub enum DiscardBrowsingContext {
    Yes,
    No,
}

/// Whether a document is fully active, active or inactive.
#[derive(Clone, Copy, Debug, PartialEq, Eq, Structural)]
pub enum DocumentActivity {
    /// An inactive document.
    Inactive,
    /// An active but not fully active document.
    Active,
    /// A fully active document.
    FullyActive,
}

/// The kind of a recorded progressive web metric.
#[derive(Clone, Copy, Debug, PartialEq, Eq, Structural)]
pub enum ProgressiveWebMetricType {
    FirstPaint,
    FirstContentfulPaint,
    TimeToInteractive,
}

/// Why the pipeline of a nested browsing context is being updated.
#[derive(Clone, Copy, Debug, PartialEq, Eq, Structural)]
pub enum UpdatePipelineIdReason {
    /// The update is due to a navigation.
    Navigation,
    /// The update is due to a history traversal.
    Traversal,
}

/// Whether a document is idle or still loading.
#[derive(Clone, Copy, Debug, PartialEq, Eq, Structural)]
pub enum DocumentState {
    /// The document has been loaded and is idle.
    Idle,
    /// The document is either loading or waiting on an event.
    Pending,
}

/// For a given pipeline, whether any animations are running and whether
/// any animation callbacks are queued.
#[derive(Clone, Copy, Debug, PartialEq, Eq, Structural)]
pub enum AnimationState {
    AnimationsPresent,
    AnimationCallbacksPresent,
    NoAnimationsPresent,
    NoAnimationCallbacksPresent,
}

/// The type of input represented by a multi-touch event.
#[derive(Clone, Copy, Debug, PartialEq, Eq, Structural)]
pub enum TouchEventType {
    /// A new touch point came in contact with the screen.
    Down,
    /// An existing touch point changed location.
    Move,
    /// A touch point was removed from the screen.
    Up,
    /// The system stopped tracking a touch point.
    Cancel,
}

/// An opaque identifier for a touch point.
#[derive(Clone, Copy, Debug, PartialEq, Eq, Structural)]
pub struct TouchId(pub i32);

/// The mouse button involved in an event.
#[derive(Clone, Copy, Debug, PartialEq, Eq, Structural)]
pub enum MouseButton {
    Left,
    Right,
    Middle,
}

/// The type of a mouse event.
#[derive(Clone, Copy, Debug, PartialEq, Eq, Structural)]
pub enum MouseEventType {
    Click,
    MouseDown,
    MouseUp,
}

/// The unit wheel deltas are measured in.
#[derive(Clone, Copy, Debug, PartialEq, Eq, Structural)]
pub enum WheelMode {
    /// Delta values are specified in pixels.
    DeltaPixel,
    /// Delta values are specified in lines.
    DeltaLine,
    /// Delta values are specified in pages.
    DeltaPage,
}

/// The result of evaluating a javascript scheme url.
pub enum JsEvalResult {
    /// The evaluation had a non-string result.
    NoContent,
    /// The evaluation had a string result.
    Content(Vec<u8>),
}

/// The identifier of a scheduled timer event.
#[derive(Clone, Copy, Debug, PartialEq, Eq, Structural)]
pub struct TimerEventId(pub u32);

/// A unit-of-measurement marker for milliseconds.
#[derive(Clone, Copy, Debug, PartialEq, Eq, Structural)]
pub enum Milliseconds {
    Unit,
}

/// A unit-of-measurement marker for nanoseconds.
#[derive(Clone, Copy, Debug, PartialEq, Eq, Structural)]
pub enum Nanoseconds {
    Unit,
}

/// Whether the sandbox attribute is present on a nested browsing context.
#[derive(Clone, Copy, Debug, PartialEq, Eq, Structural)]
pub enum IFrameSandboxState {
    IFrameSandboxed,
    IFrameUnsandboxed,
}

/// Which thread an animation tick is meant for.
#[derive(Clone, Copy, Debug, PartialEq, Eq, Structural)]
pub enum AnimationTickType {
    /// The script thread.
    Script,
    /// The layout thread.
    Layout,
}

/// The type of a window size change.
#[derive(Clone, Copy, Debug, PartialEq, Eq, Structural)]
pub enum WindowSizeType {
    /// Initial load.
    Initial,
    /// Window resize.
    Resize,
}

/// Why executing paint code in the worklet thread pool failed.
#[derive(Clone, Copy, Debug, PartialEq, Eq, Structural)]
pub enum PaintWorkletError {
    /// Execution timed out.
    Timeout,
    /// No such worklet.
    WorkletNotFound,
}

/// The intent of a media session action.
#[derive(Clone, Copy, Debug, PartialEq, Eq, Structural)]
pub enum MediaSessionActionType {
    Play,
    Pause,
    SeekBackward,
    SeekForward,
    PreviousTrack,
    NextTrack,
    SkipAd,
    Stop,
    SeekTo,
}

impl MediaSessionActionType {
    /// The action a wire code from the embedder stands for.  Codes run from
    /// 1 for `Play` through 9 for `SeekTo`; other codes name no action.
    pub fn from(value: i32) -> (r: MediaSessionActionType)
        requires
            1 <= value <= 9,
        ensures
            r == MediaSessionActionType::spec_from(value as int),
    {
        match value {
            1 => MediaSessionActionType::Play,
            2 => MediaSessionActionType::Pause,
            3 => MediaSessionActionType::SeekBackward,
            4 => MediaSessionActionType::SeekForward,
            5 => MediaSessionActionType::PreviousTrack,
            6 => MediaSessionActionType::NextTrack,
            7 => MediaSessionActionType::SkipAd,
            8 => MediaSessionActionType::Stop,
            _ => MediaSessionActionType::SeekTo,
        }
    }

    /// The wire encoding of media session actions.
    pub open spec fn spec_from(value: int) -> MediaSessionActionType {
        if value == 1 {
            MediaSessionActionType::Play
        } else if value == 2 {
            MediaSessionActionType::Pause
        } else if value == 3 {
            MediaSessionActionType::SeekBackward
        } else if value == 4 {
            MediaSessionActionType::SeekForward
        } else if value == 5 {
            MediaSessionActionType::PreviousTrack
        } else if value == 6 {
            MediaSessionActionType::NextTrack
        } else if value == 7 {
            MediaSessionActionType::SkipAd
        } else if value == 8 {
            MediaSessionActionType::Stop
        } else {
            MediaSessionActionType::SeekTo
        }
    }
}

} // verus!
