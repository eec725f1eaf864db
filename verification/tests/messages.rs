//! The plain message and event classification values.

use layout_2020::script_traits::{
    AnimationState, AnimationTickType, DiscardBrowsingContext, DocumentActivity, DocumentState,
    IFrameSandboxState, JsEvalResult, MediaSessionActionType, MouseButton, MouseEventType,
    PaintWorkletError, ProgressiveWebMetricType, TimerEventId, TouchEventType, TouchId,
    UpdatePipelineIdReason, WheelMode, WindowSizeType,
};

#[test]
fn media_session_actions_decode_from_their_wire_codes() {
    assert_eq!(MediaSessionActionType::from(1), MediaSessionActionType::Play);
    assert_eq!(MediaSessionActionType::from(3), MediaSessionActionType::SeekBackward);
    assert_eq!(MediaSessionActionType::from(8), MediaSessionActionType::Stop);
    assert_eq!(MediaSessionActionType::from(9), MediaSessionActionType::SeekTo);
}

#[test]
fn identifier_wrappers_hold_their_values() {
    assert_eq!(TouchId(4).0, 4);
    assert_eq!(TimerEventId(9).0, 9);
}

#[test]
fn classification_values_compare_by_variant() {
    assert_ne!(DiscardBrowsingContext::Yes, DiscardBrowsingContext::No);
    assert_eq!(DocumentActivity::FullyActive, DocumentActivity::FullyActive);
    assert_ne!(DocumentState::Idle, DocumentState::Pending);
    assert_ne!(AnimationState::AnimationsPresent, AnimationState::NoAnimationsPresent);
    assert_ne!(TouchEventType::Down, TouchEventType::Cancel);
    assert_ne!(MouseButton::Left, MouseButton::Middle);
    assert_ne!(MouseEventType::Click, MouseEventType::MouseUp);
    assert_ne!(WheelMode::DeltaPixel, WheelMode::DeltaPage);
    assert_ne!(WindowSizeType::Initial, WindowSizeType::Resize);
    assert_ne!(AnimationTickType::Script, AnimationTickType::Layout);
    assert_ne!(IFrameSandboxState::IFrameSandboxed, IFrameSandboxState::IFrameUnsandboxed);
    assert_ne!(UpdatePipelineIdReason::Navigation, UpdatePipelineIdReason::Traversal);
    assert_ne!(PaintWorkletError::Timeout, PaintWorkletError::WorkletNotFound);
    assert_ne!(
        ProgressiveWebMetricType::FirstPaint,
        ProgressiveWebMetricType::FirstContentfulPaint
    );
}

#[test]
fn a_script_evaluation_result_carries_its_bytes() {
    let result = JsEvalResult::Content(vec![104, 105]);
    match result {
        JsEvalResult::Content(bytes) => assert_eq!(bytes, vec![104, 105]),
        JsEvalResult::NoContent => panic!("expected a string result"),
    }
}
