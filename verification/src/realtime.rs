//! The chat widget's realtime voice conversation.
//!
//! The widget keeps the phase of the conversation and reacts to the user and to
//! the conversation's events. What it would do to the screen or send out is
//! queued as effects, in order, for the surrounding application to carry out.
use vstd::prelude::*;

use crate::user_input::{
    append_text_with_rebased_elements, elements_view, filled_element, input_elements,
    inputs_elements, inputs_fit, inputs_image_count, inputs_local_images, inputs_remote_images,
    inputs_text, lemma_image_count_splits, lemma_inputs_fit_prefix, rebase_view, utf8_len,
    ByteRange, TextElement, UserInput, UserMessageItem,
};

verus! {

/// Where a realtime conversation stands.
#[derive(Clone, Copy, Debug, PartialEq, Eq, Structural)]
pub enum RealtimeConversationPhase {
    Inactive,
    Starting,
    Active,
    Stopping,
}

impl Default for RealtimeConversationPhase {
    fn default() -> (p: Self)
        ensures
            p == RealtimeConversationPhase::Inactive,
    {
        RealtimeConversationPhase::Inactive
    }
}

/// Whether a conversation in `phase` is live: starting, active or stopping.
pub open spec fn phase_is_live(phase: RealtimeConversationPhase) -> bool {
    match phase {
        RealtimeConversationPhase::Starting | RealtimeConversationPhase::Active
        | RealtimeConversationPhase::Stopping => true,
        RealtimeConversationPhase::Inactive => false,
    }
}

/// The widget's record of the realtime conversation.
#[derive(Debug)]
pub struct RealtimeConversationUiState {
    pub phase: RealtimeConversationPhase,
    pub requested_close: bool,
    pub session_id: Option<String>,
    pub warned_audio_only_submission: bool,
}

/// The record of a widget with no conversation going on.
pub open spec fn is_idle(s: RealtimeConversationUiState) -> bool {
    &&& s.phase == RealtimeConversationPhase::Inactive
    &&& !s.requested_close
    &&& s.session_id is None
    &&& !s.warned_audio_only_submission
}

impl Default for RealtimeConversationUiState {
    fn default() -> (s: Self)
        ensures
            is_idle(s),
    {
        RealtimeConversationUiState {
            phase: RealtimeConversationPhase::Inactive,
            requested_close: false,
            session_id: None,
            warned_audio_only_submission: false,
        }
    }
}

impl RealtimeConversationUiState {
    /// Whether a conversation is starting, active or stopping.
    pub fn is_live(&self) -> (b: bool)
        ensures
            b == phase_is_live(self.phase),
    {
        match self.phase {
            RealtimeConversationPhase::Starting | RealtimeConversationPhase::Active
            | RealtimeConversationPhase::Stopping => true,
            RealtimeConversationPhase::Inactive => false,
        }
    }
}

/// A user message as the widget renders it: the message text, the urls of remote
/// images, the paths of local images, and the marked spans of the text.
#[derive(Debug, PartialEq)]
pub struct RenderedUserMessageEvent {
    pub message: String,
    pub remote_image_urls: Vec<String>,
    pub local_images: Vec<String>,
    pub text_elements: Vec<TextElement>,
}

/// The content of a rendered user message, as plain values.
pub struct RenderedView {
    pub message: Seq<char>,
    pub remote_image_urls: Seq<Seq<char>>,
    pub local_images: Seq<Seq<char>>,
    pub text_elements: Seq<(ByteRange, Option<Seq<char>>)>,
}

impl View for RenderedUserMessageEvent {
    type V = RenderedView;

    open spec fn view(&self) -> RenderedView {
        RenderedView {
            message: self.message@,
            remote_image_urls: self.remote_image_urls.deep_view(),
            local_images: self.local_images.deep_view(),
            text_elements: elements_view(self.text_elements@),
        }
    }
}

/// What a pending steer is matched by: its flattened text and how many images it has.
#[derive(Debug, PartialEq, Eq)]
pub struct PendingSteerCompareKey {
    pub message: String,
    pub image_count: usize,
}

/// A user message event as the conversation reports it.
pub struct UserMessageEvent {
    pub message: String,
    pub images: Option<Vec<String>>,
    pub local_images: Vec<String>,
    pub text_elements: Vec<TextElement>,
}

/// How a user message event is rendered: remote images are the event's images,
/// none when it has none.
pub open spec fn event_render_view(event: UserMessageEvent) -> RenderedView {
    RenderedView {
        message: event.message@,
        remote_image_urls: match event.images {
            Some(v) => v.deep_view(),
            None => Seq::empty(),
        },
        local_images: event.local_images.deep_view(),
        text_elements: elements_view(event.text_elements@),
    }
}

/// How a sequence of user input is rendered: its texts joined, its images by
/// kind, and the elements of each text placed where that text lands.
pub open spec fn inputs_render_view(items: Seq<UserInput>) -> RenderedView {
    RenderedView {
        message: inputs_text(items),
        remote_image_urls: inputs_remote_images(items),
        local_images: inputs_local_images(items),
        text_elements: inputs_elements(items),
    }
}

/// A user message typed into the composer.
pub struct UserMessage {
    pub text: String,
    pub text_elements: Vec<TextElement>,
    pub local_images: Vec<String>,
    pub remote_image_urls: Vec<String>,
}

fn clone_strings(v: &Vec<String>) -> (r: Vec<String>)
    ensures
        r@ == v@,
{
    let mut r: Vec<String> = Vec::new();
    let mut i: usize = 0;
    while i < v.len()
        invariant
            0 <= i <= v@.len(),
            r@ == v@.take(i as int),
        decreases v@.len() - i,
    {
        r.push(v[i].clone());
        assert(v@.take(i + 1) =~= v@.take(i as int).push(v@[i as int]));
        i = i + 1;
    }
    assert(v@.take(v@.len() as int) =~= v@);
    r
}

fn clone_text_elements(v: &Vec<TextElement>) -> (r: Vec<TextElement>)
    ensures
        r@ == v@,
{
    let mut r: Vec<TextElement> = Vec::new();
    let mut i: usize = 0;
    while i < v.len()
        invariant
            0 <= i <= v@.len(),
            r@ == v@.take(i as int),
        decreases v@.len() - i,
    {
        r.push(v[i].clone());
        assert(v@.take(i + 1) =~= v@.take(i as int).push(v@[i as int]));
        i = i + 1;
    }
    assert(v@.take(v@.len() as int) =~= v@);
    r
}

fn strings_equal(a: &Vec<String>, b: &Vec<String>) -> (r: bool)
    ensures
        r == (a.deep_view() == b.deep_view()),
{
    if a.len() != b.len() {
        assert(a.deep_view().len() != b.deep_view().len());
        return false;
    }
    let mut i: usize = 0;
    while i < a.len()
        invariant
            a@.len() == b@.len(),
            0 <= i <= a@.len(),
            forall|j: int| 0 <= j < i ==> a@[j]@ == b@[j]@,
        decreases a@.len() - i,
    {
        if a[i] != b[i] {
            assert(a.deep_view()[i as int] != b.deep_view()[i as int]);
            return false;
        }
        i = i + 1;
    }
    assert(a.deep_view() =~= b.deep_view());
    true
}

fn text_element_equal(a: &TextElement, b: &TextElement) -> (r: bool)
    ensures
        r == (a@ == b@),
{
    if a.byte_range.start != b.byte_range.start || a.byte_range.end != b.byte_range.end {
        return false;
    }
    assert(a.byte_range == b.byte_range);
    match (&a.placeholder, &b.placeholder) {
        (Some(p), Some(q)) => {
            let same = *p == *q;
            assert(a@.1 == Some(p@) && b@.1 == Some(q@));
            same
        },
        (None, None) => true,
        _ => false,
    }
}

fn text_elements_equal(a: &Vec<TextElement>, b: &Vec<TextElement>) -> (r: bool)
    ensures
        r == (elements_view(a@) == elements_view(b@)),
{
    if a.len() != b.len() {
        assert(elements_view(a@).len() != elements_view(b@).len());
        return false;
    }
    let mut i: usize = 0;
    while i < a.len()
        invariant
            a@.len() == b@.len(),
            0 <= i <= a@.len(),
            forall|j: int| 0 <= j < i ==> a@[j]@ == b@[j]@,
        decreases a@.len() - i,
    {
        if !text_element_equal(&a[i], &b[i]) {
            assert(elements_view(a@)[i as int] != elements_view(b@)[i as int]);
            return false;
        }
        i = i + 1;
    }
    assert(elements_view(a@) =~= elements_view(b@));
    true
}

/// Whether two rendered user messages show the same content.
pub fn rendered_events_equal(a: &RenderedUserMessageEvent, b: &RenderedUserMessageEvent) -> (r:
    bool)
    ensures
        r == (a@ == b@),
{
    let same = a.message == b.message && strings_equal(&a.remote_image_urls, &b.remote_image_urls)
        && strings_equal(&a.local_images, &b.local_images) && text_elements_equal(
        &a.text_elements,
        &b.text_elements,
    );
    proof {
        if a@.message == b@.message && a@.remote_image_urls == b@.remote_image_urls
            && a@.local_images == b@.local_images && a@.text_elements == b@.text_elements {
            assert(a@ == b@);
        }
    }
    same
}

/// The chat widget, as far as the realtime conversation is concerned.
pub struct ChatWidget {
    pub realtime_conversation: RealtimeConversationUiState,
    pub last_rendered_user_message_event: Option<RenderedUserMessageEvent>,
    pub realtime_conversation_enabled: bool,
    pub realtime_webrtc_media_enabled: bool,
    pub pending_effects: Vec<ChatWidgetEffect>,
}

impl ChatWidget {
    /// A rendered user message made of the given parts.
    pub fn rendered_user_message_event_from_parts(
        message: String,
        text_elements: Vec<TextElement>,
        local_images: Vec<String>,
        remote_image_urls: Vec<String>,
    ) -> (r: RenderedUserMessageEvent)
        ensures
            r.message == message,
            r.text_elements == text_elements,
            r.local_images == local_images,
            r.remote_image_urls == remote_image_urls,
    {
        RenderedUserMessageEvent { message, remote_image_urls, local_images, text_elements }
    }

    /// How a user message event is rendered.
    pub fn rendered_user_message_event_from_event(event: &UserMessageEvent) -> (r:
        RenderedUserMessageEvent)
        ensures
            r@ == event_render_view(*event),
    {
        let remote = match &event.images {
            Some(v) => clone_strings(v),
            None => Vec::new(),
        };
        let r = Self::rendered_user_message_event_from_parts(
            event.message.clone(),
            clone_text_elements(&event.text_elements),
            clone_strings(&event.local_images),
            remote,
        );
        proof {
            assert(r@.remote_image_urls =~= event_render_view(*event).remote_image_urls);
        }
        r
    }

    /// The key a submitted pending steer is matched by: the texts of `items`
    /// joined in order, and the number of images, remote or local. Text element
    /// ranges and image paths play no part.
    pub fn pending_steer_compare_key_from_items(items: &[UserInput]) -> (k: PendingSteerCompareKey)
        ensures
            k.message@ == inputs_text(items@),
            k.image_count == inputs_image_count(items@),
    {
        let mut message = String::new();
        let mut image_count: usize = 0;
        let mut i: usize = 0;
        while i < items.len()
            invariant
                0 <= i <= items@.len(),
                message@ == inputs_text(items@.take(i as int)),
                image_count == inputs_image_count(items@.take(i as int)),
                image_count <= i,
            decreases items@.len() - i,
        {
            proof {
                assert(items@.take(i + 1).drop_last() =~= items@.take(i as int));
                assert(items@.take(i + 1).last() == items@[i as int]);
            }
            match &items[i] {
                UserInput::Text { text, .. } => message.append(text.as_str()),
                UserInput::Image { .. } | UserInput::LocalImage { .. } => image_count += 1,
                UserInput::Skill { .. } | UserInput::Mention { .. } => {},
            }
            i = i + 1;
        }
        assert(items@.take(items@.len() as int) =~= items@);
        PendingSteerCompareKey { message, image_count }
    }

    /// The compare key of a recorded user message: that of its content.
    pub fn pending_steer_compare_key_from_item(item: &UserMessageItem) -> (k: PendingSteerCompareKey)
        ensures
            k.message@ == inputs_text(item.content@),
            k.image_count == inputs_image_count(item.content@),
    {
        Self::pending_steer_compare_key_from_items(item.content.as_slice())
    }

    /// How a sequence of user input is rendered: texts are joined in order, each
    /// text's elements get their placeholders filled in from that text and are
    /// moved to where the text lands; remote and local images are listed apart.
    pub fn rendered_user_message_event_from_inputs(items: &[UserInput]) -> (r:
        RenderedUserMessageEvent)
        requires
            inputs_fit(items@),
        ensures
            r@ == inputs_render_view(items@),
    {
        let mut message = String::new();
        let mut remote_image_urls: Vec<String> = Vec::new();
        let mut local_images: Vec<String> = Vec::new();
        let mut text_elements: Vec<TextElement> = Vec::new();
        let mut i: usize = 0;
        while i < items.len()
            invariant
                0 <= i <= items@.len(),
                inputs_fit(items@),
                message@ == inputs_text(items@.take(i as int)),
                remote_image_urls.deep_view() == inputs_remote_images(items@.take(i as int)),
                local_images.deep_view() == inputs_local_images(items@.take(i as int)),
                elements_view(text_elements@) == inputs_elements(items@.take(i as int)),
            decreases items@.len() - i,
        {
            let ghost prefix = items@.take(i as int);
            let ghost upto = items@.take(i + 1);
            proof {
                assert(upto.drop_last() =~= prefix);
                assert(upto.last() == items@[i as int]);
                lemma_inputs_fit_prefix(items@, i + 1);
            }
            match &items[i] {
                UserInput::Text { text, text_elements: current_text_elements } => {
                    proof {
                        lemma_inputs_fit_prefix(items@, i as int);
                        if i > 0 {
                            assert(utf8_len(inputs_text(prefix)) <= usize::MAX);
                        } else {
                            assert(inputs_text(prefix) =~= Seq::<char>::empty());
                        }
                    }
                    let filled = Self::fill_placeholders(current_text_elements, text.as_str());
                    append_text_with_rebased_elements(
                        &mut message,
                        &mut text_elements,
                        text.as_str(),
                        filled,
                    );
                    proof {
                        let off = utf8_len(inputs_text(prefix));
                        assert(elements_view(filled@).map_values(
                            |e: (ByteRange, Option<Seq<char>>)| rebase_view(e, off),
                        ) =~= input_elements(items@[i as int], off));
                    }
                },
                UserInput::Image { image_url } => {
                    remote_image_urls.push(image_url.clone());
                    proof {
                        assert(remote_image_urls.deep_view() =~= inputs_remote_images(upto));
                    }
                },
                UserInput::LocalImage { path } => {
                    local_images.push(path.clone());
                    proof {
                        assert(local_images.deep_view() =~= inputs_local_images(upto));
                    }
                },
                UserInput::Skill { .. } | UserInput::Mention { .. } => {},
            }
            proof {
                assert(inputs_text(upto) =~= message@);
                assert(remote_image_urls.deep_view() =~= inputs_remote_images(upto));
                assert(local_images.deep_view() =~= inputs_local_images(upto));
                assert(elements_view(text_elements@) =~= inputs_elements(upto));
            }
            i = i + 1;
        }
        assert(items@.take(items@.len() as int) =~= items@);
        Self::rendered_user_message_event_from_parts(
            message,
            text_elements,
            local_images,
            remote_image_urls,
        )
    }

    /// The elements of `text`, each with its placeholder filled in from `text`
    /// where it had none.
    fn fill_placeholders(elements: &Vec<TextElement>, text: &str) -> (r: Vec<TextElement>)
        ensures
            elements_view(r@) == elements@.map_values(|e: TextElement| filled_element(e, text@)),
            forall|j: int| 0 <= j < r@.len() ==> #[trigger] r@[j].byte_range == elements@[j].byte_range,
            r@.len() == elements@.len(),
    {
        let mut r: Vec<TextElement> = Vec::new();
        let mut i: usize = 0;
        while i < elements.len()
            invariant
                0 <= i <= elements@.len(),
                r@.len() == i,
                forall|j: int| 0 <= j < i ==> #[trigger] r@[j].byte_range == elements@[j].byte_range,
                elements_view(r@) == elements@.take(i as int).map_values(
                    |e: TextElement| filled_element(e, text@),
                ),
            decreases elements@.len() - i,
        {
            let element = &elements[i];
            let placeholder = match element.placeholder(text) {
                Some(p) => Some(String::from_str(p)),
                None => None,
            };
            let filled = TextElement::new(element.byte_range, placeholder);
            let ghost before = r@;
            r.push(filled);
            proof {
                assert(filled@ == filled_element(elements@[i as int], text@));
                assert(elements@.take(i + 1) =~= elements@.take(i as int).push(elements@[i as int]));
                assert(elements_view(r@) =~= elements_view(before).push(filled@));
                assert(elements_view(r@) =~= elements@.take(i + 1).map_values(
                    |e: TextElement| filled_element(e, text@),
                ));
            }
            i = i + 1;
        }
        assert(elements@.take(elements@.len() as int) =~= elements@);
        r
    }
}

/// The prompt a realtime conversation is started with.
pub open spec fn realtime_conversation_prompt() -> Seq<char> {
    "You are in a realtime voice conversation in the Codex TUI. Respond conversationally and concisely."@
}

/// The notice shown the first time a message is typed during a live conversation.
pub open spec fn audio_only_notice() -> Seq<char> {
    "Realtime voice mode is audio-only. Use /realtime to stop."@
}

/// The footer hints shown while a conversation is live: one key, one description.
pub open spec fn realtime_footer_hints() -> Seq<(Seq<char>, Seq<char>)> {
    seq![("/realtime"@, "stop live voice"@)]
}

/// The parameters a realtime conversation is started with.
pub struct ConversationStartParams {
    pub prompt: String,
    pub session_id: Option<String>,
}

/// A command the widget submits to the conversation.
pub enum AppCommand {
    RealtimeConversationStart(ConversationStartParams),
    RealtimeConversationClose,
}

/// An event the widget sends to the rest of the application.
#[derive(Clone, Copy, Debug, PartialEq, Eq, Structural)]
pub enum AppEvent {
    RealtimeWebrtcClose,
}

/// Something the widget asks the application to do, in the order asked.
pub enum ChatWidgetEffect {
    /// Put a message back into the composer.
    RestoreUserMessageToComposer(UserMessage),
    /// Show an informational message, without a hint.
    AddInfoMessage(String),
    /// Show an error message.
    AddErrorMessage(String),
    RequestRedraw,
    /// Replace the footer hints, or go back to the usual ones with `None`.
    SetFooterHintOverride(Option<Vec<(String, String)>>),
    SubmitOp(AppCommand),
    SendAppEvent(AppEvent),
}

/// The content of an effect, as plain values.
pub enum EffectView {
    RestoreUserMessageToComposer(UserMessage),
    AddInfoMessage(Seq<char>),
    AddErrorMessage(Seq<char>),
    RequestRedraw,
    SetFooterHintOverride(Option<Seq<(Seq<char>, Seq<char>)>>),
    SubmitRealtimeConversationStart { prompt: Seq<char>, session_id: Option<Seq<char>> },
    SubmitRealtimeConversationClose,
    SendAppEvent(AppEvent),
}

impl View for ChatWidgetEffect {
    type V = EffectView;

    open spec fn view(&self) -> EffectView {
        match self {
            ChatWidgetEffect::RestoreUserMessageToComposer(m) => EffectView::RestoreUserMessageToComposer(*m),
            ChatWidgetEffect::AddInfoMessage(m) => EffectView::AddInfoMessage(m@),
            ChatWidgetEffect::AddErrorMessage(m) => EffectView::AddErrorMessage(m@),
            ChatWidgetEffect::RequestRedraw => EffectView::RequestRedraw,
            ChatWidgetEffect::SetFooterHintOverride(items) => EffectView::SetFooterHintOverride(items.deep_view()),
            ChatWidgetEffect::SubmitOp(AppCommand::RealtimeConversationStart(params)) => {
                EffectView::SubmitRealtimeConversationStart {
                    prompt: params.prompt@,
                    session_id: params.session_id.deep_view(),
                }
            },
            ChatWidgetEffect::SubmitOp(AppCommand::RealtimeConversationClose) => EffectView::SubmitRealtimeConversationClose,
            ChatWidgetEffect::SendAppEvent(e) => EffectView::SendAppEvent(*e),
        }
    }
}

/// The record after a typed message meets the conversation: a live one remembers
/// that the audio-only notice has been given.
pub open spec fn defer_state(s: RealtimeConversationUiState) -> RealtimeConversationUiState {
    if phase_is_live(s.phase) {
        RealtimeConversationUiState { warned_audio_only_submission: true, ..s }
    } else {
        s
    }
}

/// The effects of a typed message `m` meeting the conversation: during a live one
/// it goes back to the composer, followed by the audio-only notice if it has not
/// been given yet, or else by a redraw; otherwise nothing happens.
pub open spec fn defer_effects(s: RealtimeConversationUiState, m: UserMessage) -> Seq<EffectView> {
    if phase_is_live(s.phase) {
        seq![
            EffectView::RestoreUserMessageToComposer(m),
            if s.warned_audio_only_submission {
                EffectView::RequestRedraw
            } else {
                EffectView::AddInfoMessage(audio_only_notice())
            },
        ]
    } else {
        Seq::empty()
    }
}

/// The effects of asking to close the conversation, whether or not it is `live`,
/// with an optional informational message.
pub open spec fn close_request_effects(live: bool, info_message: Option<Seq<char>>) -> Seq<EffectView> {
    if !live {
        match info_message {
            Some(m) => seq![EffectView::AddInfoMessage(m)],
            None => Seq::empty(),
        }
    } else {
        seq![
            EffectView::SubmitRealtimeConversationClose,
            EffectView::SetFooterHintOverride(None),
        ] + match info_message {
            Some(m) => seq![EffectView::AddInfoMessage(m)],
            None => seq![EffectView::RequestRedraw],
        }
    }
}

/// The record after asking to close: a live conversation is stopping, by request;
/// anything else is left as it was.
pub open spec fn close_request_state(s: RealtimeConversationUiState) -> RealtimeConversationUiState {
    if phase_is_live(s.phase) {
        RealtimeConversationUiState {
            phase: RealtimeConversationPhase::Stopping,
            requested_close: true,
            ..s
        }
    } else {
        s
    }
}

/// The effects of failing the conversation with `message`, whether or not it is `live`.
pub open spec fn failure_effects(live: bool, message: Seq<char>) -> Seq<EffectView> {
    seq![EffectView::AddErrorMessage(message)] + if live {
        close_request_effects(true, None)
    } else {
        seq![EffectView::SetFooterHintOverride(None), EffectView::RequestRedraw]
    }
}

/// The informational message shown when the conversation closes for `reason`.
pub open spec fn closed_notice(reason: Seq<char>) -> Seq<char> {
    "Realtime voice mode closed: "@ + reason
}

/// The error message shown for a realtime error reported as `message`.
pub open spec fn realtime_error_text(message: Seq<char>) -> Seq<char> {
    "Realtime voice error: "@ + message
}

/// Whether a closed conversation leaves its outcome to the media transport: the
/// WebRTC media path is on, the close was not asked for, and the reason is that
/// the transport closed.
pub open spec fn close_left_to_transport(
    webrtc_media: bool,
    requested: bool,
    reason: Option<Seq<char>>,
) -> bool {
    webrtc_media && !requested && reason == Some("transport_closed"@)
}

/// The effects of the conversation closing for `reason`.
pub open spec fn closed_effects(webrtc_media: bool, requested: bool, reason: Option<Seq<char>>) -> Seq<
    EffectView,
> {
    if close_left_to_transport(webrtc_media, requested, reason) {
        seq![EffectView::RequestRedraw]
    } else {
        (if webrtc_media {
            seq![EffectView::SendAppEvent(AppEvent::RealtimeWebrtcClose)]
        } else {
            Seq::empty()
        }) + seq![EffectView::SetFooterHintOverride(None)] + (match reason {
            Some(r) => if !requested && r != "error"@ {
                seq![EffectView::AddInfoMessage(closed_notice(r))]
            } else {
                Seq::empty()
            },
            None => Seq::empty(),
        }) + seq![EffectView::RequestRedraw]
    }
}

/// Which audio device a restart concerns.
#[derive(Clone, Copy, Debug, PartialEq, Eq, Structural)]
pub enum RealtimeAudioDeviceKind {
    Microphone,
    Speaker,
}

/// A chunk of audio the conversation produced.
pub struct RealtimeAudioFrame {
    pub data: String,
    pub sample_rate: u32,
    pub num_channels: u16,
    pub samples_per_channel: Option<u32>,
}

/// The conversation has started, possibly within a session.
pub struct RealtimeConversationStartedEvent {
    pub session_id: Option<String>,
}

/// What happened within a live conversation.
pub enum RealtimeEvent {
    SessionUpdated { session_id: String },
    InputAudioSpeechStarted,
    InputTranscriptDelta(String),
    OutputTranscriptDelta(String),
    AudioOut(RealtimeAudioFrame),
    ResponseCancelled,
    ConversationItemAdded,
    ConversationItemDone { item_id: String },
    HandoffRequested,
    Error(String),
}

/// An event within a live conversation.
pub struct RealtimeConversationRealtimeEvent {
    pub payload: RealtimeEvent,
}

/// The conversation has closed, for an optional reason.
pub struct RealtimeConversationClosedEvent {
    pub reason: Option<String>,
}

/// The effects a widget has queued, as plain values.
pub open spec fn effects_of(w: ChatWidget) -> Seq<EffectView> {
    w.pending_effects@.map_values(|e: ChatWidgetEffect| e@)
}

/// Whether two widgets agree on everything but the realtime record and the effects.
pub open spec fn same_settings(a: ChatWidget, b: ChatWidget) -> bool {
    &&& a.last_rendered_user_message_event == b.last_rendered_user_message_event
    &&& a.realtime_conversation_enabled == b.realtime_conversation_enabled
    &&& a.realtime_webrtc_media_enabled == b.realtime_webrtc_media_enabled
}

/// The record of a conversation that has just been asked to start.
pub open spec fn is_starting_fresh(s: RealtimeConversationUiState) -> bool {
    &&& s.phase == RealtimeConversationPhase::Starting
    &&& !s.requested_close
    &&& s.session_id is None
    &&& !s.warned_audio_only_submission
}

impl ChatWidget {
    /// A widget with no conversation going on and nothing queued, with the
    /// realtime conversation feature and the WebRTC media path on or off.
    pub fn new(realtime_conversation_enabled: bool, realtime_webrtc_media_enabled: bool) -> (w: Self)
        ensures
            is_idle(w.realtime_conversation),
            w.last_rendered_user_message_event is None,
            w.realtime_conversation_enabled == realtime_conversation_enabled,
            w.realtime_webrtc_media_enabled == realtime_webrtc_media_enabled,
            effects_of(w) == Seq::<EffectView>::empty(),
    {
        let w = ChatWidget {
            realtime_conversation: RealtimeConversationUiState::default(),
            last_rendered_user_message_event: None,
            realtime_conversation_enabled,
            realtime_webrtc_media_enabled,
            pending_effects: Vec::new(),
        };
        assert(effects_of(w) =~= Seq::<EffectView>::empty());
        w
    }

    /// Whether the realtime conversation feature is on.
    pub fn realtime_conversation_enabled(&self) -> (b: bool)
        ensures
            b == self.realtime_conversation_enabled,
    {
        self.realtime_conversation_enabled
    }

    /// Whether audio goes over the native WebRTC media path.
    pub fn realtime_webrtc_media_enabled(&self) -> (b: bool)
        ensures
            b == self.realtime_webrtc_media_enabled,
    {
        self.realtime_webrtc_media_enabled
    }

    /// Hands over the queued effects, in order, and empties the queue.
    pub fn take_effects(&mut self) -> (effects: Vec<ChatWidgetEffect>)
        ensures
            effects@.map_values(|e: ChatWidgetEffect| e@) == effects_of(*old(self)),
            effects_of(*final(self)) == Seq::<EffectView>::empty(),
            final(self).realtime_conversation == old(self).realtime_conversation,
            same_settings(*final(self), *old(self)),
    {
        let mut effects: Vec<ChatWidgetEffect> = Vec::new();
        std::mem::swap(&mut effects, &mut self.pending_effects);
        assert(effects_of(*self) =~= Seq::<EffectView>::empty());
        effects
    }

    fn emit(&mut self, effect: ChatWidgetEffect)
        ensures
            effects_of(*final(self)) == effects_of(*old(self)).push(effect@),
            final(self).realtime_conversation == old(self).realtime_conversation,
            same_settings(*final(self), *old(self)),
    {
        let ghost e = effect@;
        self.pending_effects.push(effect);
        assert(effects_of(*self) =~= effects_of(*old(self)).push(e));
    }

    fn request_redraw(&mut self)
        ensures
            effects_of(*final(self)) == effects_of(*old(self)).push(EffectView::RequestRedraw),
            final(self).realtime_conversation == old(self).realtime_conversation,
            same_settings(*final(self), *old(self)),
    {
        self.emit(ChatWidgetEffect::RequestRedraw);
    }

    fn add_info_message(&mut self, message: String)
        ensures
            effects_of(*final(self)) == effects_of(*old(self)).push(EffectView::AddInfoMessage(message@)),
            final(self).realtime_conversation == old(self).realtime_conversation,
            same_settings(*final(self), *old(self)),
    {
        self.emit(ChatWidgetEffect::AddInfoMessage(message));
    }

    fn set_footer_hint_override(&mut self, items: Option<Vec<(String, String)>>)
        ensures
            effects_of(*final(self)) == effects_of(*old(self)).push(
                EffectView::SetFooterHintOverride(items.deep_view()),
            ),
            final(self).realtime_conversation == old(self).realtime_conversation,
            same_settings(*final(self), *old(self)),
    {
        self.emit(ChatWidgetEffect::SetFooterHintOverride(items));
    }

    /// The footer hints shown while a conversation is live.
    pub fn realtime_footer_hint_items() -> (items: Vec<(String, String)>)
        ensures
            items.deep_view() == realtime_footer_hints(),
    {
        let mut items: Vec<(String, String)> = Vec::new();
        items.push((String::from_str("/realtime"), String::from_str("stop live voice")));
        assert(items.deep_view() =~= realtime_footer_hints());
        items
    }

    /// Whether a user message event should be rendered during the realtime
    /// conversation: only while it is live, and only when it differs from the
    /// message rendered last.
    pub fn should_render_realtime_user_message_event(&self, event: &UserMessageEvent) -> (b: bool)
        ensures
            b == (phase_is_live(self.realtime_conversation.phase) && match self.last_rendered_user_message_event {
                Some(last) => last@ != event_render_view(*event),
                None => true,
            }),
    {
        if !self.realtime_conversation.is_live() {
            return false;
        }
        let key = Self::rendered_user_message_event_from_event(event);
        match &self.last_rendered_user_message_event {
            Some(last) => !rendered_events_equal(last, &key),
            None => true,
        }
    }

    /// During a live conversation a typed message is not sent: it goes back to the
    /// composer, and the first time the audio-only notice is shown (later times
    /// only a redraw). Otherwise the message is handed back to be sent.
    pub fn maybe_defer_user_message_for_realtime(&mut self, user_message: UserMessage) -> (r:
        Option<UserMessage>)
        ensures
            same_settings(*final(self), *old(self)),
            r == (if phase_is_live(old(self).realtime_conversation.phase) {
                None
            } else {
                Some(user_message)
            }),
            final(self).realtime_conversation == defer_state(old(self).realtime_conversation),
            effects_of(*final(self)) == effects_of(*old(self)) + defer_effects(
                old(self).realtime_conversation,
                user_message,
            ),
    {
        if !self.realtime_conversation.is_live() {
            assert(effects_of(*self) =~= effects_of(*old(self)) + defer_effects(
                old(self).realtime_conversation,
                user_message,
            ));
            return Some(user_message);
        }
        let ghost kept = user_message;
        self.emit(ChatWidgetEffect::RestoreUserMessageToComposer(user_message));
        if !self.realtime_conversation.warned_audio_only_submission {
            self.realtime_conversation.warned_audio_only_submission = true;
            self.add_info_message(
                String::from_str("Realtime voice mode is audio-only. Use /realtime to stop."),
            );
        } else {
            self.request_redraw();
        }
        assert(effects_of(*self) =~= effects_of(*old(self)) + defer_effects(
            old(self).realtime_conversation,
            kept,
        ));
        None
    }

    /// The user stops the conversation: a close request without a message.
    pub fn stop_realtime_conversation_from_ui(&mut self)
        ensures
            same_settings(*final(self), *old(self)),
            final(self).realtime_conversation == close_request_state(old(self).realtime_conversation),
            effects_of(*final(self)) == effects_of(*old(self)) + close_request_effects(
                phase_is_live(old(self).realtime_conversation.phase),
                None,
            ),
    {
        self.request_realtime_conversation_close(None);
    }

    /// Starts a conversation: a fresh record in the starting phase, the realtime
    /// footer hints, the start command with the realtime prompt and no session,
    /// and a redraw.
    pub fn start_realtime_conversation(&mut self)
        ensures
            same_settings(*final(self), *old(self)),
            is_starting_fresh(final(self).realtime_conversation),
            effects_of(*final(self)) == effects_of(*old(self)) + seq![
                EffectView::SetFooterHintOverride(Some(realtime_footer_hints())),
                EffectView::SubmitRealtimeConversationStart {
                    prompt: realtime_conversation_prompt(),
                    session_id: None,
                },
                EffectView::RequestRedraw,
            ],
    {
        self.realtime_conversation.phase = RealtimeConversationPhase::Starting;
        self.realtime_conversation.requested_close = false;
        self.realtime_conversation.session_id = None;
        self.realtime_conversation.warned_audio_only_submission = false;
        self.set_footer_hint_override(Some(Self::realtime_footer_hint_items()));
        let params = ConversationStartParams {
            prompt: String::from_str(
                "You are in a realtime voice conversation in the Codex TUI. Respond conversationally and concisely.",
            ),
            session_id: None,
        };
        self.emit(ChatWidgetEffect::SubmitOp(AppCommand::RealtimeConversationStart(params)));
        self.request_redraw();
        assert(effects_of(*self) =~= effects_of(*old(self)) + seq![
            EffectView::SetFooterHintOverride(Some(realtime_footer_hints())),
            EffectView::SubmitRealtimeConversationStart {
                prompt: realtime_conversation_prompt(),
                session_id: None,
            },
            EffectView::RequestRedraw,
        ]);
    }

    /// Asks to close the conversation. A live one moves to stopping, by request:
    /// the close command is submitted, local audio stops and the footer hints go
    /// back to the usual ones. The message, if any, is shown in either case.
    pub fn request_realtime_conversation_close(&mut self, info_message: Option<String>)
        ensures
            same_settings(*final(self), *old(self)),
            final(self).realtime_conversation == close_request_state(old(self).realtime_conversation),
            effects_of(*final(self)) == effects_of(*old(self)) + close_request_effects(
                phase_is_live(old(self).realtime_conversation.phase),
                info_message.deep_view(),
            ),
    {
        let ghost message_view = info_message.deep_view();
        if !self.realtime_conversation.is_live() {
            if let Some(message) = info_message {
                self.add_info_message(message);
            }
            assert(effects_of(*self) =~= effects_of(*old(self)) + close_request_effects(
                false,
                message_view,
            ));
            return ;
        }
        self.realtime_conversation.requested_close = true;
        self.realtime_conversation.phase = RealtimeConversationPhase::Stopping;
        self.emit(ChatWidgetEffect::SubmitOp(AppCommand::RealtimeConversationClose));
        self.stop_realtime_local_audio();
        self.set_footer_hint_override(None);
        if let Some(message) = info_message {
            self.add_info_message(message);
        } else {
            self.request_redraw();
        }
        assert(effects_of(*self) =~= effects_of(*old(self)) + close_request_effects(
            true,
            message_view,
        ));
    }

    /// Forgets the conversation: local audio stops, the footer hints go back to
    /// the usual ones, and the record is that of no conversation.
    pub fn reset_realtime_conversation_state(&mut self)
        ensures
            same_settings(*final(self), *old(self)),
            is_idle(final(self).realtime_conversation),
            effects_of(*final(self)) == effects_of(*old(self)).push(
                EffectView::SetFooterHintOverride(None),
            ),
    {
        self.stop_realtime_local_audio();
        self.set_footer_hint_override(None);
        self.realtime_conversation.phase = RealtimeConversationPhase::Inactive;
        self.realtime_conversation.requested_close = false;
        self.realtime_conversation.session_id = None;
        self.realtime_conversation.warned_audio_only_submission = false;
    }

    /// Shows `message` as an error, then asks a live conversation to close, or
    /// forgets a conversation that is not live and redraws.
    pub fn fail_realtime_conversation(&mut self, message: String)
        ensures
            same_settings(*final(self), *old(self)),
            phase_is_live(old(self).realtime_conversation.phase) ==> final(self).realtime_conversation
                == close_request_state(old(self).realtime_conversation),
            !phase_is_live(old(self).realtime_conversation.phase) ==> is_idle(
                final(self).realtime_conversation,
            ),
            effects_of(*final(self)) == effects_of(*old(self)) + failure_effects(
                phase_is_live(old(self).realtime_conversation.phase),
                message@,
            ),
    {
        let ghost text = message@;
        self.emit(ChatWidgetEffect::AddErrorMessage(message));
        if self.realtime_conversation.is_live() {
            self.request_realtime_conversation_close(None);
        } else {
            self.reset_realtime_conversation_state();
            self.request_redraw();
        }
        assert(effects_of(*self) =~= effects_of(*old(self)) + failure_effects(
            phase_is_live(old(self).realtime_conversation.phase),
            text,
        ));
    }

    /// The conversation has started. With the feature off it is asked to close
    /// right away. Otherwise it is active, within the reported session, with the
    /// audio-only notice not yet shown; the realtime footer hints appear, local
    /// audio starts and the widget redraws.
    pub fn on_realtime_conversation_started(&mut self, ev: RealtimeConversationStartedEvent)
        ensures
            same_settings(*final(self), *old(self)),
            !old(self).realtime_conversation_enabled ==> {
                &&& final(self).realtime_conversation == close_request_state(
                    old(self).realtime_conversation,
                )
                &&& effects_of(*final(self)) == effects_of(*old(self)) + close_request_effects(
                    phase_is_live(old(self).realtime_conversation.phase),
                    None,
                )
            },
            old(self).realtime_conversation_enabled ==> {
                &&& final(self).realtime_conversation == RealtimeConversationUiState {
                    phase: RealtimeConversationPhase::Active,
                    session_id: ev.session_id,
                    warned_audio_only_submission: false,
                    ..old(self).realtime_conversation
                }
                &&& effects_of(*final(self)) == effects_of(*old(self)) + seq![
                    EffectView::SetFooterHintOverride(Some(realtime_footer_hints())),
                    EffectView::RequestRedraw,
                    EffectView::RequestRedraw,
                ]
            },
    {
        if !self.realtime_conversation_enabled() {
            self.request_realtime_conversation_close(None);
            return ;
        }
        self.realtime_conversation.phase = RealtimeConversationPhase::Active;
        self.realtime_conversation.session_id = ev.session_id;
        self.realtime_conversation.warned_audio_only_submission = false;
        self.set_footer_hint_override(Some(Self::realtime_footer_hint_items()));
        self.start_realtime_local_audio();
        self.request_redraw();
        assert(effects_of(*self) =~= effects_of(*old(self)) + seq![
            EffectView::SetFooterHintOverride(Some(realtime_footer_hints())),
            EffectView::RequestRedraw,
            EffectView::RequestRedraw,
        ]);
    }

    /// An event within the conversation. A session update records the session;
    /// an error fails the conversation with "Realtime voice error: " and the
    /// message; everything else changes nothing here.
    pub fn on_realtime_conversation_realtime(&mut self, ev: RealtimeConversationRealtimeEvent)
        ensures
            same_settings(*final(self), *old(self)),
            match ev.payload {
                RealtimeEvent::SessionUpdated { session_id } => {
                    &&& final(self).realtime_conversation == RealtimeConversationUiState {
                        session_id: Some(session_id),
                        ..old(self).realtime_conversation
                    }
                    &&& effects_of(*final(self)) == effects_of(*old(self))
                },
                RealtimeEvent::Error(message) => {
                    &&& phase_is_live(old(self).realtime_conversation.phase)
                        ==> final(self).realtime_conversation == close_request_state(
                        old(self).realtime_conversation,
                    )
                    &&& !phase_is_live(old(self).realtime_conversation.phase) ==> is_idle(
                        final(self).realtime_conversation,
                    )
                    &&& effects_of(*final(self)) == effects_of(*old(self)) + failure_effects(
                        phase_is_live(old(self).realtime_conversation.phase),
                        realtime_error_text(message@),
                    )
                },
                _ => {
                    &&& final(self).realtime_conversation == old(self).realtime_conversation
                    &&& effects_of(*final(self)) == effects_of(*old(self))
                },
            },
    {
        match ev.payload {
            RealtimeEvent::SessionUpdated { session_id } => {
                self.realtime_conversation.session_id = Some(session_id);
            },
            RealtimeEvent::InputAudioSpeechStarted => self.interrupt_realtime_audio_playback(),
            RealtimeEvent::InputTranscriptDelta(_) => {},
            RealtimeEvent::OutputTranscriptDelta(_) => {},
            RealtimeEvent::AudioOut(frame) => self.enqueue_realtime_audio_out(&frame),
            RealtimeEvent::ResponseCancelled => self.interrupt_realtime_audio_playback(),
            RealtimeEvent::ConversationItemAdded => {},
            RealtimeEvent::ConversationItemDone { .. } => {},
            RealtimeEvent::HandoffRequested => {},
            RealtimeEvent::Error(message) => {
                let mut text = String::from_str("Realtime voice error: ");
                text.append(message.as_str());
                self.fail_realtime_conversation(text);
            },
        }
    }

    /// The conversation has closed. When the WebRTC media path is on, the close
    /// was not asked for, and the transport closed, only a redraw follows. Otherwise
    /// the WebRTC media session is told to close (media path on), the conversation
    /// is forgotten, an unrequested close other than for an error is announced
    /// with its reason, and the widget redraws.
    pub fn on_realtime_conversation_closed(&mut self, ev: RealtimeConversationClosedEvent)
        ensures
            same_settings(*final(self), *old(self)),
            close_left_to_transport(
                old(self).realtime_webrtc_media_enabled,
                old(self).realtime_conversation.requested_close,
                ev.reason.deep_view(),
            ) ==> final(self).realtime_conversation == old(self).realtime_conversation,
            !close_left_to_transport(
                old(self).realtime_webrtc_media_enabled,
                old(self).realtime_conversation.requested_close,
                ev.reason.deep_view(),
            ) ==> is_idle(final(self).realtime_conversation),
            effects_of(*final(self)) == effects_of(*old(self)) + closed_effects(
                old(self).realtime_webrtc_media_enabled,
                old(self).realtime_conversation.requested_close,
                ev.reason.deep_view(),
            ),
    {
        let requested = self.realtime_conversation.requested_close;
        let reason = ev.reason;
        let ghost reason_view = reason.deep_view();
        let webrtc_media = self.realtime_webrtc_media_enabled();
        let transport_closed = match &reason {
            Some(r) => *r == String::from_str("transport_closed"),
            None => false,
        };
        proof {
            assert(transport_closed == (reason_view == Some("transport_closed"@)));
        }
        if webrtc_media && !requested && transport_closed {
            self.request_redraw();
            assert(effects_of(*self) =~= effects_of(*old(self)) + closed_effects(
                webrtc_media,
                requested,
                reason_view,
            ));
            return ;
        }
        let ghost e0 = effects_of(*self);
        if webrtc_media {
            self.emit(ChatWidgetEffect::SendAppEvent(AppEvent::RealtimeWebrtcClose));
        }
        let ghost e1 = effects_of(*self);
        self.reset_realtime_conversation_state();
        let ghost e2 = effects_of(*self);
        if !requested {
            if let Some(r) = reason {
                if r != String::from_str("error") {
                    let mut notice = String::from_str("Realtime voice mode closed: ");
                    notice.append(r.as_str());
                    self.add_info_message(notice);
                }
            }
        }
        let ghost e3 = effects_of(*self);
        self.request_redraw();
        proof {
            let first = if webrtc_media {
                seq![EffectView::SendAppEvent(AppEvent::RealtimeWebrtcClose)]
            } else {
                Seq::<EffectView>::empty()
            };
            let middle = match reason_view {
                Some(r) => if !requested && r != "error"@ {
                    seq![EffectView::AddInfoMessage(closed_notice(r))]
                } else {
                    Seq::<EffectView>::empty()
                },
                None => Seq::<EffectView>::empty(),
            };
            assert(e1 =~= e0 + first);
            assert(e3 =~= e2 + middle);
            assert(effects_of(*self) =~= effects_of(*old(self)) + closed_effects(
                webrtc_media,
                requested,
                reason_view,
            ));
        }
    }

    /// Audio produced by the conversation: the native media transport plays it,
    /// so nothing happens here.
    pub fn enqueue_realtime_audio_out(&mut self, frame: &RealtimeAudioFrame)
        ensures
            *final(self) == *old(self),
    {
        let _ = frame;
    }

    /// The user started speaking or a response was cancelled: the native media
    /// transport interrupts playback, so nothing happens here.
    pub fn interrupt_realtime_audio_playback(&mut self)
        ensures
            *final(self) == *old(self),
    {
    }

    /// Local audio starts with the conversation; the widget redraws.
    pub fn start_realtime_local_audio(&mut self)
        ensures
            same_settings(*final(self), *old(self)),
            final(self).realtime_conversation == old(self).realtime_conversation,
            effects_of(*final(self)) == effects_of(*old(self)).push(EffectView::RequestRedraw),
    {
        self.request_redraw();
    }

    /// A request to restart an audio device: the native media transport owns the
    /// devices, so nothing happens here.
    pub fn restart_realtime_audio_device(&mut self, kind: RealtimeAudioDeviceKind)
        ensures
            *final(self) == *old(self),
    {
        let _ = kind;
    }

    /// Local audio stops with the conversation: nothing to do here.
    pub fn stop_realtime_local_audio(&mut self)
        ensures
            *final(self) == *old(self),
    {
    }
}

/// During a live conversation the audio-only notice is given for the first typed
/// message only: a later message goes back to the composer with just a redraw,
/// and the record does not change any more.
pub proof fn lemma_audio_only_notice_given_once(
    s: RealtimeConversationUiState,
    first: UserMessage,
    second: UserMessage,
)
    requires
        phase_is_live(s.phase),
    ensures
        (defer_effects(s, first)[1] == EffectView::AddInfoMessage(audio_only_notice()))
            == !s.warned_audio_only_submission,
        defer_effects(defer_state(s), second) == seq![
            EffectView::RestoreUserMessageToComposer(second),
            EffectView::RequestRedraw,
        ],
        defer_state(defer_state(s)) == defer_state(s),
{
}

/// A close the user asked for ends quietly: once a live conversation has been
/// asked to close, its closing is never left to the media transport, so it brings
/// back the idle record, and it announces nothing, whatever the reason.
pub proof fn lemma_requested_close_ends_quietly(
    s: RealtimeConversationUiState,
    webrtc_media: bool,
    reason: Option<Seq<char>>,
)
    requires
        phase_is_live(s.phase),
    ensures
        close_request_state(s).phase == RealtimeConversationPhase::Stopping,
        close_request_state(s).requested_close,
        !close_left_to_transport(webrtc_media, close_request_state(s).requested_close, reason),
        forall|i: int|
            0 <= i < closed_effects(webrtc_media, true, reason).len() ==> !(closed_effects(
                webrtc_media,
                true,
                reason,
            )[i] is AddInfoMessage),
{
    let e = closed_effects(webrtc_media, true, reason);
    assert forall|i: int| 0 <= i < e.len() implies !(e[i] is AddInfoMessage) by {
        if webrtc_media {
            assert(e =~= seq![
                EffectView::SendAppEvent(AppEvent::RealtimeWebrtcClose),
                EffectView::SetFooterHintOverride(None),
                EffectView::RequestRedraw,
            ]);
        } else {
            assert(e =~= seq![EffectView::SetFooterHintOverride(None), EffectView::RequestRedraw]);
        }
    }
}

/// A pending steer's compare key agrees with how the same input is rendered: the
/// same message text, and as many images as the rendered message lists remote
/// and local images together.
pub proof fn lemma_compare_key_agrees_with_rendering(items: Seq<UserInput>)
    ensures
        inputs_render_view(items).message == inputs_text(items),
        inputs_image_count(items) == inputs_render_view(items).remote_image_urls.len()
            + inputs_render_view(items).local_images.len(),
{
    lemma_image_count_splits(items);
}

/// With the WebRTC media path on, an unrequested close is left to the transport
/// exactly when the reason is "transport_closed". For any other reason, or none,
/// the conversation is not left alone: the WebRTC media session is told to close
/// first, the footer hints go back to the usual ones, a reason other than "error"
/// is announced as "Realtime voice mode closed: " and the reason, and the widget
/// redraws last. Without the WebRTC media path a close is never left alone.
pub proof fn lemma_unrequested_close_ends_conversation(reason: Option<Seq<char>>)
    ensures
        close_left_to_transport(true, false, Some("transport_closed"@)),
        forall|requested: bool, r: Option<Seq<char>>| !close_left_to_transport(false, requested, r),
        reason != Some("transport_closed"@) ==> {
            let effects = closed_effects(true, false, reason);
            &&& !close_left_to_transport(true, false, reason)
            &&& effects[0] == EffectView::SendAppEvent(AppEvent::RealtimeWebrtcClose)
            &&& effects[1] == EffectView::SetFooterHintOverride(None)
            &&& effects.last() == EffectView::RequestRedraw
            &&& match reason {
                Some(r) => if r != "error"@ {
                    effects == seq![
                        EffectView::SendAppEvent(AppEvent::RealtimeWebrtcClose),
                        EffectView::SetFooterHintOverride(None),
                        EffectView::AddInfoMessage("Realtime voice mode closed: "@ + r),
                        EffectView::RequestRedraw,
                    ]
                } else {
                    effects.len() == 3
                },
                None => effects.len() == 3,
            }
        },
{
    if reason != Some("transport_closed"@) {
        let effects = closed_effects(true, false, reason);
        match reason {
            Some(r) => {
                if r != "error"@ {
                    assert(effects =~= seq![
                        EffectView::SendAppEvent(AppEvent::RealtimeWebrtcClose),
                        EffectView::SetFooterHintOverride(None),
                        EffectView::AddInfoMessage("Realtime voice mode closed: "@ + r),
                        EffectView::RequestRedraw,
                    ]);
                } else {
                    assert(effects =~= seq![
                        EffectView::SendAppEvent(AppEvent::RealtimeWebrtcClose),
                        EffectView::SetFooterHintOverride(None),
                        EffectView::RequestRedraw,
                    ]);
                }
            },
            None => {
                assert(effects =~= seq![
                    EffectView::SendAppEvent(AppEvent::RealtimeWebrtcClose),
                    EffectView::SetFooterHintOverride(None),
                    EffectView::RequestRedraw,
                ]);
            },
        }
    }
}

/// Rendering a user message event keeps everything it reports, in order: its
/// text, every one of its remote images when it has some (none when it has
/// none), every local image, and every text element.
pub proof fn lemma_event_render_keeps_everything(event: UserMessageEvent)
    ensures
        ({
            let r = event_render_view(event);
            &&& r.message == event.message@
            &&& match event.images {
                Some(v) => r.remote_image_urls.len() == v@.len() && forall|i: int|
                    0 <= i < v@.len() ==> #[trigger] r.remote_image_urls[i] == v@[i]@,
                None => r.remote_image_urls.len() == 0,
            }
            &&& r.local_images.len() == event.local_images@.len()
            &&& forall|i: int|
                0 <= i < event.local_images@.len() ==> #[trigger] r.local_images[i]
                    == event.local_images@[i]@
            &&& r.text_elements.len() == event.text_elements@.len()
            &&& forall|i: int|
                0 <= i < event.text_elements@.len() ==> #[trigger] r.text_elements[i] == (
                    event.text_elements@[i].byte_range,
                    event.text_elements@[i].placeholder.deep_view(),
                )
        }),
{
}

} // verus!
