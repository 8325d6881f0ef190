use herdr_core::pane_audio::{
    close_params, close_request_id, serve_step, shape_refusal, CloseWhy, ServeAction, ServeEvent, ServePhase, stream_close, StreamStop, frame_length_check, frame_request_id, frame_step, offer_answer,
    open_answer, pane_not_found, refused_frame, shape_error, stream_owner, FrameRead, FrameStep,
    OfferError, OpenError, PaneAudioStreamParams, StreamEnd, StreamRegistry, PANE_AUDIO_CHANNELS,
    PANE_AUDIO_FRAME_BYTES, PANE_AUDIO_FRAME_SAMPLES, PANE_AUDIO_SAMPLE_RATE_HZ,
};

fn params(pane_id: &str) -> PaneAudioStreamParams {
    PaneAudioStreamParams {
        pane_id: pane_id.into(),
        sample_rate_hz: PANE_AUDIO_SAMPLE_RATE_HZ,
        channels: PANE_AUDIO_CHANNELS,
        format: "f32le".into(),
        owner: String::new(),
    }
}

#[test]
fn shape_error_names_the_field_that_is_wrong() {
    assert_eq!(shape_error(&params("pane_1")), None);
    let mut wrong = params("pane_1");
    wrong.sample_rate_hz = 44_100;
    assert!(shape_error(&wrong).unwrap().contains("sample_rate_hz"));
    let mut wrong = params("pane_1");
    wrong.channels = 1;
    assert!(shape_error(&wrong).unwrap().contains("channels"));
    let mut wrong = params("pane_1");
    wrong.format = "s16le".into();
    assert!(shape_error(&wrong).unwrap().contains("format"));
}

#[test]
fn shape_error_messages_are_exact_and_checked_in_order() {
    let mut wrong = params("pane_1");
    wrong.sample_rate_hz = 44_100;
    wrong.channels = 1;
    assert_eq!(shape_error(&wrong).unwrap(), "sample_rate_hz must be 48000, got 44100");
    let mut wrong = params("pane_1");
    wrong.channels = 1;
    assert_eq!(shape_error(&wrong).unwrap(), "channels must be 2, got 1");
    let mut wrong = params("pane_1");
    wrong.format = "s16le".into();
    assert_eq!(shape_error(&wrong).unwrap(), "format must be \"f32le\", got \"s16le\"");
}

#[test]
fn a_frame_is_its_samples() {
    assert_eq!(PANE_AUDIO_FRAME_BYTES, PANE_AUDIO_FRAME_SAMPLES * 2 * 4);
}

#[test]
fn frame_steps_follow_the_read() {
    assert_eq!(frame_step(FrameRead::Whole, 0), FrameStep::Dispatch(1));
    assert_eq!(frame_step(FrameRead::Whole, u64::MAX), FrameStep::Dispatch(u64::MAX));
    assert_eq!(frame_step(FrameRead::CleanEnd, 3), FrameStep::Stop(StreamEnd::Ended));
    assert_eq!(
        frame_step(FrameRead::Short, 2),
        FrameStep::Refuse("frame 3 ended short; every frame is 7680 bytes of f32le samples".into())
    );
    assert_eq!(frame_step(FrameRead::Failure, 2), FrameStep::Error);
}

#[test]
fn closing_reports_failure_and_detail() {
    assert_eq!(close_params(StreamEnd::Ended), (false, String::new()));
    assert_eq!(close_params(refused_frame(4)), (true, "frame 4 refused".to_string()));
}

#[test]
fn request_ids_and_owners_are_spelled_out() {
    assert_eq!(frame_request_id("audio_1", 7), "audio_1:frame:7");
    assert_eq!(close_request_id("pane_1"), "pane.audio.stream.close:pane_1");
    assert_eq!(stream_owner(42, 0), "pane.audio.stream:42:0");
}

#[test]
fn the_registry_replaces_forgets_and_sweeps() {
    let mut registry: StreamRegistry<u32> = StreamRegistry::new();
    assert_eq!(registry.len(), 0);
    registry.register("a".into(), 1);
    registry.register("b".into(), 2);
    registry.register("a".into(), 3);
    assert_eq!(registry.len(), 2);
    assert!(registry.contains("a"));
    assert_eq!(registry.unregister("a"), Some(3));
    assert_eq!(registry.unregister("a"), None);
    registry.register("c".into(), 4);
    registry.register("d".into(), 5);
    let stopped = registry.cancel_inactive(&vec!["c".to_string()]);
    assert_eq!(stopped, vec![2, 5]);
    assert_eq!(registry.len(), 1);
    assert!(registry.contains("c"));
    assert!(!registry.contains("b"));
}

#[test]
fn open_answers_check_owner_then_pane_then_core() {
    let e = open_answer("", false, "p", Ok(())).unwrap_err();
    assert_eq!(e.code, "invalid_stream");
    let e = open_answer("o", false, "w9:p9", Ok(())).unwrap_err();
    assert_eq!(e, pane_not_found("w9:p9"));
    assert_eq!(e.message, "pane w9:p9 not found");
    assert!(open_answer("o", true, "p", Ok(())).is_ok());
    assert_eq!(open_answer("o", true, "p", Err(OpenError::Conflict)).unwrap_err().code, "stream_conflict");
    let e = open_answer("o", true, "p", Err(OpenError::Codec("no opus".into()))).unwrap_err();
    assert_eq!((e.code.as_str(), e.message.as_str()), ("codec_unavailable", "no opus"));
}

#[test]
fn frames_of_the_wrong_length_are_refused() {
    assert!(frame_length_check(PANE_AUDIO_FRAME_BYTES).is_ok());
    for len in [PANE_AUDIO_FRAME_BYTES - 1, PANE_AUDIO_FRAME_BYTES + 1, 0] {
        let e = frame_length_check(len).unwrap_err();
        assert_eq!(e.code, "invalid_frame");
        assert_eq!(e.message, format!("audio frame must be 7680 bytes of f32le samples, got {len}"));
    }
}

#[test]
fn offers_map_the_core_answer() {
    assert!(offer_answer(Ok(())).is_ok());
    assert_eq!(offer_answer(Err(OfferError::NotOpen)).unwrap_err().code, "stream_closed");
    assert_eq!(offer_answer(Err(OfferError::OwnerMismatch)).unwrap_err().code, "stream_conflict");
    assert_eq!(offer_answer(Err(OfferError::Frame("bad".into()))).unwrap_err().code, "invalid_frame");
}

#[test]
fn every_stop_closes_with_its_reason() {
    assert_eq!(stream_close(StreamStop::OpenRefused), (true, "open refused".to_string()));
    assert_eq!(
        stream_close(StreamStop::ProducerLeftBeforeAck),
        (true, "producer left before the ack".to_string())
    );
    assert_eq!(stream_close(StreamStop::Loop(StreamEnd::Ended)), (false, String::new()));
    assert_eq!(stream_close(StreamStop::Loop(refused_frame(2))), (true, "frame 2 refused".to_string()));
    assert_eq!(stream_close(StreamStop::ReadError("timed out".into())), (true, "timed out".to_string()));
}

#[test]
fn a_wrong_shape_is_refused_as_invalid_params() {
    assert_eq!(shape_refusal(&params("pane_1")), None);
    let mut wrong = params("pane_1");
    wrong.channels = 6;
    let e = shape_refusal(&wrong).expect("refused");
    assert_eq!(e.code, "invalid_params");
    assert_eq!(e.message, "channels must be 2, got 6");
}

fn run(events: &[ServeEvent]) -> (ServePhase, Vec<ServeAction>) {
    let mut phase = ServePhase::Start;
    let mut actions = Vec::new();
    for event in events {
        let (next, action) = serve_step(phase, *event);
        phase = next;
        actions.push(action);
    }
    (phase, actions)
}

#[test]
fn a_stream_opens_then_numbers_its_frames_then_closes_once() {
    let (phase, actions) = run(&[
        ServeEvent::ShapeChecked(true),
        ServeEvent::OpenAnswered(true),
        ServeEvent::AckWritten(true),
        ServeEvent::Read(FrameRead::Whole),
        ServeEvent::FrameAnswered(true),
        ServeEvent::Read(FrameRead::Whole),
        ServeEvent::FrameAnswered(true),
        ServeEvent::Read(FrameRead::Short),
        ServeEvent::Read(FrameRead::Whole),
    ]);
    assert_eq!(
        actions,
        vec![
            ServeAction::DispatchOpen,
            ServeAction::RegisterAndAck,
            ServeAction::ReadFrame,
            ServeAction::DispatchFrame(1),
            ServeAction::ReadFrame,
            ServeAction::DispatchFrame(2),
            ServeAction::ReadFrame,
            ServeAction::Close(CloseWhy::ShortFrame(2)),
            ServeAction::Nothing,
        ],
        "a partial frame is refused, never dispatched, and nothing follows the close"
    );
    assert_eq!(phase, ServePhase::Done);
}

#[test]
fn every_way_a_stream_ends() {
    assert_eq!(run(&[ServeEvent::ShapeChecked(false)]).1, vec![ServeAction::RejectParams]);
    assert_eq!(
        run(&[ServeEvent::ShapeChecked(true), ServeEvent::OpenAnswered(false)]).1.last(),
        Some(&ServeAction::Close(CloseWhy::OpenRefused))
    );
    assert_eq!(
        run(&[ServeEvent::ShapeChecked(true), ServeEvent::OpenAnswered(true), ServeEvent::AckWritten(false)]).1.last(),
        Some(&ServeAction::Close(CloseWhy::LeftBeforeAck))
    );
    let opened = [ServeEvent::ShapeChecked(true), ServeEvent::OpenAnswered(true), ServeEvent::AckWritten(true)];
    let with = |extra: &[ServeEvent]| {
        let mut all = opened.to_vec();
        all.extend_from_slice(extra);
        run(&all).1.last().copied()
    };
    assert_eq!(with(&[ServeEvent::Read(FrameRead::CleanEnd)]), Some(ServeAction::Close(CloseWhy::Finished)));
    assert_eq!(with(&[ServeEvent::Stopped]), Some(ServeAction::Close(CloseWhy::Finished)));
    assert_eq!(with(&[ServeEvent::Read(FrameRead::Failure)]), Some(ServeAction::FailWithReadError));
    assert_eq!(
        with(&[ServeEvent::Read(FrameRead::Whole), ServeEvent::FrameAnswered(false)]),
        Some(ServeAction::Close(CloseWhy::FrameRefused(1)))
    );
    assert_eq!(with(&[ServeEvent::FrameAnswered(true)]), Some(ServeAction::Nothing), "an event out of turn does nothing");
}
