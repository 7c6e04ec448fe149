use codex_realtime::webrtc::{
    audio_transceiver_settings, local_audio_track_label, offer_settings, CloseLatch, Negotiation,
    NegotiationStep, RealtimeWebrtcError, TransceiverDirection,
};

fn run(mut negotiation: Negotiation, outcomes: Vec<Result<(), String>>) -> (Result<(), RealtimeWebrtcError>, Vec<NegotiationStep>) {
    let mut ran = Vec::new();
    for outcome in outcomes {
        match negotiation.next_step() {
            Some(step) => ran.push(step),
            None => break,
        }
        match negotiation.record(outcome) {
            Ok(next) => negotiation = next,
            Err(e) => return (Err(e), ran),
        }
    }
    assert!(negotiation.is_complete());
    (Ok(()), ran)
}

#[test]
fn offer_runs_all_steps_in_order_when_each_succeeds() {
    let (result, ran) = run(Negotiation::for_offer(), vec![Ok(()); 5]);
    assert_eq!(result, Ok(()));
    assert_eq!(
        ran,
        vec![
            NegotiationStep::CreatePeerConnection,
            NegotiationStep::AddAudioTransceiver,
            NegotiationStep::AttachLocalAudio,
            NegotiationStep::CreateOffer,
            NegotiationStep::SetLocalDescription,
        ]
    );
}

#[test]
fn answer_runs_parse_then_set_remote() {
    let (result, ran) = run(Negotiation::for_answer(), vec![Ok(()), Ok(())]);
    assert_eq!(result, Ok(()));
    assert_eq!(ran, vec![NegotiationStep::ParseAnswer, NegotiationStep::SetRemoteDescription]);
}

#[test]
fn first_failing_step_decides_the_error_and_later_steps_do_not_run() {
    let outcomes = vec![Ok(()), Ok(()), Err("no microphone".to_string()), Err("later".to_string()), Ok(())];
    let (result, ran) = run(Negotiation::for_offer(), outcomes);
    assert_eq!(result, Err(RealtimeWebrtcError::AttachLocalAudio("no microphone".to_string())));
    assert_eq!(ran.len(), 3);
}

#[test]
fn each_offer_step_failure_gives_its_own_error() {
    let expected = [
        RealtimeWebrtcError::CreatePeerConnection("x".to_string()),
        RealtimeWebrtcError::AddAudioTransceiver("x".to_string()),
        RealtimeWebrtcError::AttachLocalAudio("x".to_string()),
        RealtimeWebrtcError::CreateOffer("x".to_string()),
        RealtimeWebrtcError::SetLocalDescription("x".to_string()),
    ];
    for (k, want) in expected.into_iter().enumerate() {
        let mut outcomes = vec![Ok(()); k];
        outcomes.push(Err("x".to_string()));
        let (result, _) = run(Negotiation::for_offer(), outcomes);
        assert_eq!(result, Err(want));
    }
}

#[test]
fn answer_failures_give_parse_and_set_remote_errors() {
    let (result, _) = run(Negotiation::for_answer(), vec![Err("bad sdp".to_string())]);
    assert_eq!(result, Err(RealtimeWebrtcError::ParseAnswer("bad sdp".to_string())));
    let (result, _) = run(Negotiation::for_answer(), vec![Ok(()), Err("rejected".to_string())]);
    assert_eq!(result, Err(RealtimeWebrtcError::SetRemoteDescription("rejected".to_string())));
}

#[test]
fn error_messages_name_the_failed_step() {
    let cases = [
        (NegotiationStep::CreatePeerConnection, "failed to create WebRTC peer connection: boom"),
        (NegotiationStep::AddAudioTransceiver, "failed to add WebRTC audio transceiver: boom"),
        (NegotiationStep::AttachLocalAudio, "failed to attach platform microphone to WebRTC sender: boom"),
        (NegotiationStep::CreateOffer, "failed to create WebRTC offer: boom"),
        (NegotiationStep::SetLocalDescription, "failed to set local WebRTC description: boom"),
        (NegotiationStep::ParseAnswer, "failed to parse WebRTC answer SDP: boom"),
        (NegotiationStep::SetRemoteDescription, "failed to set remote WebRTC description: boom"),
    ];
    for (step, text) in cases {
        let e = RealtimeWebrtcError::from_step(step, "boom".to_string());
        assert_eq!(e.step(), step);
        assert_eq!(e.detail(), "boom");
        assert_eq!(e.message(), text);
    }
}

#[test]
fn next_step_is_none_once_complete() {
    let mut n = Negotiation::for_answer();
    assert_eq!(n.next_step(), Some(NegotiationStep::ParseAnswer));
    assert!(!n.is_complete());
    n = n.record(Ok(())).unwrap();
    assert_eq!(n.next_step(), Some(NegotiationStep::SetRemoteDescription));
    n = n.record(Ok(())).unwrap();
    assert_eq!(n.next_step(), None);
    assert!(n.is_complete());
}

#[test]
fn peer_connection_is_closed_exactly_once() {
    let mut latch = CloseLatch::new();
    assert!(!latch.is_closed());
    let closes: Vec<bool> = (0..4).map(|_| latch.close()).collect();
    assert_eq!(closes, vec![true, false, false, false]);
    assert!(latch.is_closed());
}

#[test]
fn offer_is_audio_only_send_and_receive() {
    let t = audio_transceiver_settings();
    assert_eq!(t.direction, TransceiverDirection::SendRecv);
    assert_eq!(t.stream_ids, vec!["realtime".to_string()]);
    assert_eq!(local_audio_track_label(), "realtime-mic");
    let o = offer_settings();
    assert!(!o.ice_restart);
    assert!(o.offer_to_receive_audio);
    assert!(!o.offer_to_receive_video);
}
