use codex_realtime::realtime::{
    AppCommand, AppEvent, ChatWidget, ChatWidgetEffect, RealtimeAudioDeviceKind,
    RealtimeAudioFrame, RealtimeConversationClosedEvent, RealtimeConversationPhase,
    RealtimeConversationRealtimeEvent, RealtimeConversationStartedEvent,
    RealtimeConversationUiState, RealtimeEvent, UserMessage, UserMessageEvent,
};
use codex_realtime::user_input::{ByteRange, TextElement, UserInput, UserMessageItem};

fn message(text: &str) -> UserMessage {
    UserMessage {
        text: text.to_string(),
        text_elements: Vec::new(),
        local_images: Vec::new(),
        remote_image_urls: Vec::new(),
    }
}

fn info(effect: &ChatWidgetEffect) -> Option<&str> {
    match effect {
        ChatWidgetEffect::AddInfoMessage(m) => Some(m.as_str()),
        _ => None,
    }
}

fn is_redraw(effect: &ChatWidgetEffect) -> bool {
    matches!(effect, ChatWidgetEffect::RequestRedraw)
}

fn live_widget(webrtc: bool) -> ChatWidget {
    let mut w = ChatWidget::new(true, webrtc);
    w.start_realtime_conversation();
    w.on_realtime_conversation_started(RealtimeConversationStartedEvent {
        session_id: Some("sess-1".to_string()),
    });
    w.take_effects();
    w
}

#[test]
fn new_widget_is_idle() {
    let w = ChatWidget::new(true, false);
    assert_eq!(w.realtime_conversation.phase, RealtimeConversationPhase::Inactive);
    assert!(!w.realtime_conversation.is_live());
    assert!(w.pending_effects.is_empty());
    let s = RealtimeConversationUiState::default();
    assert!(!s.requested_close && s.session_id.is_none() && !s.warned_audio_only_submission);
}

#[test]
fn is_live_for_every_phase_but_inactive() {
    let mut s = RealtimeConversationUiState::default();
    for (phase, live) in [
        (RealtimeConversationPhase::Inactive, false),
        (RealtimeConversationPhase::Starting, true),
        (RealtimeConversationPhase::Active, true),
        (RealtimeConversationPhase::Stopping, true),
    ] {
        s.phase = phase;
        assert_eq!(s.is_live(), live);
    }
}

#[test]
fn start_submits_the_prompt_and_shows_hints() {
    let mut w = ChatWidget::new(true, false);
    w.start_realtime_conversation();
    assert_eq!(w.realtime_conversation.phase, RealtimeConversationPhase::Starting);
    let effects = w.take_effects();
    assert_eq!(effects.len(), 3);
    match &effects[0] {
        ChatWidgetEffect::SetFooterHintOverride(Some(items)) => {
            assert_eq!(items, &vec![("/realtime".to_string(), "stop live voice".to_string())]);
        }
        _ => panic!("expected footer hints"),
    }
    match &effects[1] {
        ChatWidgetEffect::SubmitOp(AppCommand::RealtimeConversationStart(params)) => {
            assert_eq!(
                params.prompt,
                "You are in a realtime voice conversation in the Codex TUI. Respond conversationally and concisely."
            );
            assert!(params.session_id.is_none());
        }
        _ => panic!("expected start command"),
    }
    assert!(is_redraw(&effects[2]));
    assert!(w.take_effects().is_empty());
}

#[test]
fn started_event_makes_the_conversation_active() {
    let mut w = ChatWidget::new(true, false);
    w.start_realtime_conversation();
    w.take_effects();
    w.on_realtime_conversation_started(RealtimeConversationStartedEvent {
        session_id: Some("abc".to_string()),
    });
    assert_eq!(w.realtime_conversation.phase, RealtimeConversationPhase::Active);
    assert_eq!(w.realtime_conversation.session_id.as_deref(), Some("abc"));
    let effects = w.take_effects();
    assert_eq!(effects.len(), 3);
    assert!(matches!(effects[0], ChatWidgetEffect::SetFooterHintOverride(Some(_))));
    assert!(is_redraw(&effects[1]) && is_redraw(&effects[2]));
}

#[test]
fn started_event_with_feature_off_closes() {
    let mut w = ChatWidget::new(false, false);
    w.start_realtime_conversation();
    w.take_effects();
    w.on_realtime_conversation_started(RealtimeConversationStartedEvent { session_id: None });
    assert_eq!(w.realtime_conversation.phase, RealtimeConversationPhase::Stopping);
    assert!(w.realtime_conversation.requested_close);
    let effects = w.take_effects();
    assert!(matches!(effects[0], ChatWidgetEffect::SubmitOp(AppCommand::RealtimeConversationClose)));
    assert!(matches!(effects[1], ChatWidgetEffect::SetFooterHintOverride(None)));
    assert!(is_redraw(&effects[2]));
}

#[test]
fn message_passes_through_when_not_live() {
    let mut w = ChatWidget::new(true, false);
    let out = w.maybe_defer_user_message_for_realtime(message("hello"));
    assert_eq!(out.map(|m| m.text), Some("hello".to_string()));
    assert!(w.take_effects().is_empty());
}

#[test]
fn audio_only_notice_is_given_once() {
    let mut w = live_widget(false);
    assert!(w.maybe_defer_user_message_for_realtime(message("one")).is_none());
    let first = w.take_effects();
    assert_eq!(first.len(), 2);
    assert!(matches!(&first[0], ChatWidgetEffect::RestoreUserMessageToComposer(m) if m.text == "one"));
    assert_eq!(info(&first[1]), Some("Realtime voice mode is audio-only. Use /realtime to stop."));
    assert!(w.maybe_defer_user_message_for_realtime(message("two")).is_none());
    let second = w.take_effects();
    assert_eq!(second.len(), 2);
    assert!(is_redraw(&second[1]));
    assert!(w.realtime_conversation.warned_audio_only_submission);
}

#[test]
fn close_request_when_not_live_only_shows_message() {
    let mut w = ChatWidget::new(true, false);
    w.request_realtime_conversation_close(Some("bye".to_string()));
    let effects = w.take_effects();
    assert_eq!(effects.len(), 1);
    assert_eq!(info(&effects[0]), Some("bye"));
    assert_eq!(w.realtime_conversation.phase, RealtimeConversationPhase::Inactive);
    w.request_realtime_conversation_close(None);
    assert!(w.take_effects().is_empty());
}

#[test]
fn close_request_when_live_stops() {
    let mut w = live_widget(false);
    w.request_realtime_conversation_close(Some("closing".to_string()));
    assert_eq!(w.realtime_conversation.phase, RealtimeConversationPhase::Stopping);
    assert!(w.realtime_conversation.requested_close);
    let effects = w.take_effects();
    assert_eq!(effects.len(), 3);
    assert!(matches!(effects[0], ChatWidgetEffect::SubmitOp(AppCommand::RealtimeConversationClose)));
    assert!(matches!(effects[1], ChatWidgetEffect::SetFooterHintOverride(None)));
    assert_eq!(info(&effects[2]), Some("closing"));

    let mut w = live_widget(false);
    w.stop_realtime_conversation_from_ui();
    let effects = w.take_effects();
    assert_eq!(effects.len(), 3);
    assert!(is_redraw(&effects[2]));
}

#[test]
fn requested_close_ends_quietly() {
    let mut w = live_widget(true);
    w.stop_realtime_conversation_from_ui();
    w.take_effects();
    w.on_realtime_conversation_closed(RealtimeConversationClosedEvent {
        reason: Some("transport_closed".to_string()),
    });
    assert_eq!(w.realtime_conversation.phase, RealtimeConversationPhase::Inactive);
    let effects = w.take_effects();
    assert_eq!(effects.len(), 3);
    assert!(matches!(effects[0], ChatWidgetEffect::SendAppEvent(AppEvent::RealtimeWebrtcClose)));
    assert!(matches!(effects[1], ChatWidgetEffect::SetFooterHintOverride(None)));
    assert!(is_redraw(&effects[2]));
}

#[test]
fn unrequested_transport_close_is_left_to_webrtc() {
    let mut w = live_widget(true);
    w.on_realtime_conversation_closed(RealtimeConversationClosedEvent {
        reason: Some("transport_closed".to_string()),
    });
    assert_eq!(w.realtime_conversation.phase, RealtimeConversationPhase::Active);
    let effects = w.take_effects();
    assert_eq!(effects.len(), 1);
    assert!(is_redraw(&effects[0]));
}

#[test]
fn unrequested_close_is_announced_with_its_reason() {
    let mut w = live_widget(false);
    w.on_realtime_conversation_closed(RealtimeConversationClosedEvent {
        reason: Some("timeout".to_string()),
    });
    assert_eq!(w.realtime_conversation.phase, RealtimeConversationPhase::Inactive);
    assert!(w.realtime_conversation.session_id.is_none());
    let effects = w.take_effects();
    assert_eq!(effects.len(), 3);
    assert!(matches!(effects[0], ChatWidgetEffect::SetFooterHintOverride(None)));
    assert_eq!(info(&effects[1]), Some("Realtime voice mode closed: timeout"));
    assert!(is_redraw(&effects[2]));
}

#[test]
fn close_for_error_or_without_reason_is_not_announced() {
    for reason in [Some("error".to_string()), None] {
        let mut w = live_widget(false);
        w.on_realtime_conversation_closed(RealtimeConversationClosedEvent { reason });
        let effects = w.take_effects();
        assert_eq!(effects.len(), 2);
        assert!(effects.iter().all(|e| info(e).is_none()));
    }
}

#[test]
fn realtime_error_fails_the_conversation() {
    let mut w = live_widget(false);
    w.on_realtime_conversation_realtime(RealtimeConversationRealtimeEvent {
        payload: RealtimeEvent::Error("socket reset".to_string()),
    });
    let effects = w.take_effects();
    assert!(matches!(&effects[0], ChatWidgetEffect::AddErrorMessage(m) if m == "Realtime voice error: socket reset"));
    assert!(matches!(effects[1], ChatWidgetEffect::SubmitOp(AppCommand::RealtimeConversationClose)));
    assert_eq!(w.realtime_conversation.phase, RealtimeConversationPhase::Stopping);
}

#[test]
fn failure_when_not_live_resets_and_redraws() {
    let mut w = ChatWidget::new(true, false);
    w.fail_realtime_conversation("broken".to_string());
    let effects = w.take_effects();
    assert_eq!(effects.len(), 3);
    assert!(matches!(&effects[0], ChatWidgetEffect::AddErrorMessage(m) if m == "broken"));
    assert!(matches!(effects[1], ChatWidgetEffect::SetFooterHintOverride(None)));
    assert!(is_redraw(&effects[2]));
}

#[test]
fn session_update_records_the_session_and_other_events_do_nothing() {
    let mut w = live_widget(false);
    w.on_realtime_conversation_realtime(RealtimeConversationRealtimeEvent {
        payload: RealtimeEvent::SessionUpdated { session_id: "sess-2".to_string() },
    });
    assert_eq!(w.realtime_conversation.session_id.as_deref(), Some("sess-2"));
    for payload in [
        RealtimeEvent::InputAudioSpeechStarted,
        RealtimeEvent::InputTranscriptDelta("hi".to_string()),
        RealtimeEvent::OutputTranscriptDelta("hello".to_string()),
        RealtimeEvent::AudioOut(RealtimeAudioFrame {
            data: "AAAA".to_string(),
            sample_rate: 24000,
            num_channels: 1,
            samples_per_channel: None,
        }),
        RealtimeEvent::ResponseCancelled,
        RealtimeEvent::ConversationItemAdded,
        RealtimeEvent::ConversationItemDone { item_id: "i".to_string() },
        RealtimeEvent::HandoffRequested,
    ] {
        w.on_realtime_conversation_realtime(RealtimeConversationRealtimeEvent { payload });
    }
    w.restart_realtime_audio_device(RealtimeAudioDeviceKind::Microphone);
    assert!(w.take_effects().is_empty());
    assert_eq!(w.realtime_conversation.phase, RealtimeConversationPhase::Active);
}

#[test]
fn reset_forgets_the_conversation() {
    let mut w = live_widget(false);
    w.maybe_defer_user_message_for_realtime(message("x"));
    w.take_effects();
    w.reset_realtime_conversation_state();
    assert_eq!(w.realtime_conversation.phase, RealtimeConversationPhase::Inactive);
    assert!(!w.realtime_conversation.warned_audio_only_submission);
    assert!(w.realtime_conversation.session_id.is_none());
    let effects = w.take_effects();
    assert_eq!(effects.len(), 1);
    assert!(matches!(effects[0], ChatWidgetEffect::SetFooterHintOverride(None)));
}

fn text(t: &str, elements: Vec<TextElement>) -> UserInput {
    UserInput::Text { text: t.to_string(), text_elements: elements }
}

#[test]
fn compare_key_joins_text_and_counts_images() {
    let items = vec![
        text("hello ", vec![]),
        UserInput::Image { image_url: "https://x/img.png".to_string() },
        UserInput::Skill { name: "s".to_string(), path: "/s".to_string() },
        text("world", vec![TextElement::new(ByteRange { start: 0, end: 5 }, None)]),
        UserInput::LocalImage { path: "/tmp/a.png".to_string() },
        UserInput::Mention { name: "m".to_string(), path: "/m".to_string() },
    ];
    let key = ChatWidget::pending_steer_compare_key_from_items(&items);
    assert_eq!(key.message, "hello world");
    assert_eq!(key.image_count, 2);
    let rendered = ChatWidget::rendered_user_message_event_from_inputs(&items);
    assert_eq!(rendered.message, key.message);
    assert_eq!(rendered.remote_image_urls.len() + rendered.local_images.len(), key.image_count);
    let item = UserMessageItem { id: "u1".to_string(), content: items };
    assert_eq!(ChatWidget::pending_steer_compare_key_from_item(&item), key);
}

#[test]
fn rendered_inputs_rebase_elements_and_fill_placeholders() {
    let items = vec![
        text("héllo ", vec![TextElement::new(ByteRange { start: 0, end: 2 }, None)]),
        UserInput::Image { image_url: "u1".to_string() },
        text(
            "[img] there",
            vec![
                TextElement::new(ByteRange { start: 0, end: 5 }, Some("[Image #1]".to_string())),
                TextElement::new(ByteRange { start: 6, end: 11 }, None),
                TextElement::new(ByteRange { start: 8, end: 20 }, None),
            ],
        ),
        UserInput::LocalImage { path: "/p.png".to_string() },
    ];
    let r = ChatWidget::rendered_user_message_event_from_inputs(&items);
    assert_eq!(r.message, "héllo [img] there");
    assert_eq!(r.remote_image_urls, vec!["u1".to_string()]);
    assert_eq!(r.local_images, vec!["/p.png".to_string()]);
    // "h" is one byte, "é" two: bytes 0..2 cut "é" in half, so no placeholder is taken from the text.
    assert_eq!(
        r.text_elements,
        vec![
            TextElement::new(ByteRange { start: 0, end: 2 }, None),
            TextElement::new(ByteRange { start: 7, end: 12 }, Some("[Image #1]".to_string())),
            TextElement::new(ByteRange { start: 13, end: 18 }, Some("there".to_string())),
            TextElement::new(ByteRange { start: 15, end: 27 }, None),
        ]
    );
    assert_eq!(&r.message.as_bytes()[13..18], b"there");
}

#[test]
fn placeholder_falls_back_to_covered_text() {
    let e = TextElement::new(ByteRange { start: 1, end: 3 }, None);
    assert_eq!(e.placeholder("héllo"), Some("é"));
    let reversed = TextElement::new(ByteRange { start: 3, end: 1 }, None);
    assert_eq!(reversed.placeholder("héllo"), None);
    let own = TextElement::new(ByteRange { start: 0, end: 100 }, Some("P".to_string()));
    assert_eq!(own.placeholder("x"), Some("P"));
}

#[test]
fn rendered_event_from_event_and_should_render() {
    let event = UserMessageEvent {
        message: "hi".to_string(),
        images: None,
        local_images: vec!["/a.png".to_string()],
        text_elements: vec![TextElement::new(ByteRange { start: 0, end: 2 }, None)],
    };
    let rendered = ChatWidget::rendered_user_message_event_from_event(&event);
    assert_eq!(rendered.message, "hi");
    assert!(rendered.remote_image_urls.is_empty());
    assert_eq!(rendered.local_images, vec!["/a.png".to_string()]);
    let parts = ChatWidget::rendered_user_message_event_from_parts(
        "hi".to_string(),
        vec![TextElement::new(ByteRange { start: 0, end: 2 }, None)],
        vec!["/a.png".to_string()],
        Vec::new(),
    );
    assert_eq!(rendered, parts);

    let mut w = ChatWidget::new(true, false);
    assert!(!w.should_render_realtime_user_message_event(&event));
    let mut w_live = live_widget(false);
    assert!(w_live.should_render_realtime_user_message_event(&event));
    w_live.last_rendered_user_message_event = Some(parts);
    assert!(!w_live.should_render_realtime_user_message_event(&event));
    let other = UserMessageEvent {
        message: "hi".to_string(),
        images: Some(vec!["u".to_string()]),
        local_images: vec!["/a.png".to_string()],
        text_elements: Vec::new(),
    };
    assert!(w_live.should_render_realtime_user_message_event(&other));
    w.take_effects();
}

#[test]
fn no_op_hooks_change_nothing() {
    let mut w = live_widget(false);
    w.interrupt_realtime_audio_playback();
    w.stop_realtime_local_audio();
    w.enqueue_realtime_audio_out(&RealtimeAudioFrame {
        data: String::new(),
        sample_rate: 16000,
        num_channels: 1,
        samples_per_channel: Some(160),
    });
    assert!(w.take_effects().is_empty());
    w.start_realtime_local_audio();
    let effects = w.take_effects();
    assert_eq!(effects.len(), 1);
    assert!(is_redraw(&effects[0]));
    assert!(w.realtime_conversation_enabled());
    assert!(!w.realtime_webrtc_media_enabled());
    assert_eq!(ChatWidget::realtime_footer_hint_items().len(), 1);
}
