//! Decisions of a native realtime WebRTC audio session.
//!
//! Setting up a session runs a fixed sequence of peer-connection steps; the
//! first step that fails ends the setup with the error that names it. Closing
//! a session closes the underlying peer connection exactly once, however many
//! times `close` is asked for.
use vstd::prelude::*;

verus! {

/// One step of creating an SDP offer or applying an SDP answer.
#[derive(Clone, Copy, Debug, PartialEq, Eq, Structural)]
pub enum NegotiationStep {
    CreatePeerConnection,
    AddAudioTransceiver,
    AttachLocalAudio,
    CreateOffer,
    SetLocalDescription,
    ParseAnswer,
    SetRemoteDescription,
}

/// Why a realtime WebRTC media session could not be set up or completed.
/// Each variant names the step that failed and carries the underlying reason.
#[derive(Debug, PartialEq, Eq)]
pub enum RealtimeWebrtcError {
    CreatePeerConnection(String),
    AddAudioTransceiver(String),
    AttachLocalAudio(String),
    CreateOffer(String),
    SetLocalDescription(String),
    ParseAnswer(String),
    SetRemoteDescription(String),
}

/// The error reported when `step` fails with the reason `detail`.
pub open spec fn step_error(step: NegotiationStep, detail: String) -> RealtimeWebrtcError {
    match step {
        NegotiationStep::CreatePeerConnection => RealtimeWebrtcError::CreatePeerConnection(detail),
        NegotiationStep::AddAudioTransceiver => RealtimeWebrtcError::AddAudioTransceiver(detail),
        NegotiationStep::AttachLocalAudio => RealtimeWebrtcError::AttachLocalAudio(detail),
        NegotiationStep::CreateOffer => RealtimeWebrtcError::CreateOffer(detail),
        NegotiationStep::SetLocalDescription => RealtimeWebrtcError::SetLocalDescription(detail),
        NegotiationStep::ParseAnswer => RealtimeWebrtcError::ParseAnswer(detail),
        NegotiationStep::SetRemoteDescription => RealtimeWebrtcError::SetRemoteDescription(detail),
    }
}

/// The step that an error names.
pub open spec fn error_step(e: RealtimeWebrtcError) -> NegotiationStep {
    match e {
        RealtimeWebrtcError::CreatePeerConnection(_) => NegotiationStep::CreatePeerConnection,
        RealtimeWebrtcError::AddAudioTransceiver(_) => NegotiationStep::AddAudioTransceiver,
        RealtimeWebrtcError::AttachLocalAudio(_) => NegotiationStep::AttachLocalAudio,
        RealtimeWebrtcError::CreateOffer(_) => NegotiationStep::CreateOffer,
        RealtimeWebrtcError::SetLocalDescription(_) => NegotiationStep::SetLocalDescription,
        RealtimeWebrtcError::ParseAnswer(_) => NegotiationStep::ParseAnswer,
        RealtimeWebrtcError::SetRemoteDescription(_) => NegotiationStep::SetRemoteDescription,
    }
}

/// The reason an error carries.
pub open spec fn error_detail(e: RealtimeWebrtcError) -> String {
    match e {
        RealtimeWebrtcError::CreatePeerConnection(d) => d,
        RealtimeWebrtcError::AddAudioTransceiver(d) => d,
        RealtimeWebrtcError::AttachLocalAudio(d) => d,
        RealtimeWebrtcError::CreateOffer(d) => d,
        RealtimeWebrtcError::SetLocalDescription(d) => d,
        RealtimeWebrtcError::ParseAnswer(d) => d,
        RealtimeWebrtcError::SetRemoteDescription(d) => d,
    }
}

/// The text that comes before the reason in an error's message.
pub open spec fn step_failure_prefix(step: NegotiationStep) -> Seq<char> {
    match step {
        NegotiationStep::CreatePeerConnection => "failed to create WebRTC peer connection: "@,
        NegotiationStep::AddAudioTransceiver => "failed to add WebRTC audio transceiver: "@,
        NegotiationStep::AttachLocalAudio => "failed to attach platform microphone to WebRTC sender: "@,
        NegotiationStep::CreateOffer => "failed to create WebRTC offer: "@,
        NegotiationStep::SetLocalDescription => "failed to set local WebRTC description: "@,
        NegotiationStep::ParseAnswer => "failed to parse WebRTC answer SDP: "@,
        NegotiationStep::SetRemoteDescription => "failed to set remote WebRTC description: "@,
    }
}

impl RealtimeWebrtcError {
    /// The error for a failure of `step` with reason `detail`.
    pub fn from_step(step: NegotiationStep, detail: String) -> (e: Self)
        ensures
            e == step_error(step, detail),
    {
        match step {
            NegotiationStep::CreatePeerConnection => RealtimeWebrtcError::CreatePeerConnection(detail),
            NegotiationStep::AddAudioTransceiver => RealtimeWebrtcError::AddAudioTransceiver(detail),
            NegotiationStep::AttachLocalAudio => RealtimeWebrtcError::AttachLocalAudio(detail),
            NegotiationStep::CreateOffer => RealtimeWebrtcError::CreateOffer(detail),
            NegotiationStep::SetLocalDescription => RealtimeWebrtcError::SetLocalDescription(detail),
            NegotiationStep::ParseAnswer => RealtimeWebrtcError::ParseAnswer(detail),
            NegotiationStep::SetRemoteDescription => RealtimeWebrtcError::SetRemoteDescription(detail),
        }
    }

    /// The step whose failure this error reports.
    pub fn step(&self) -> (s: NegotiationStep)
        ensures
            s == error_step(*self),
    {
        match self {
            RealtimeWebrtcError::CreatePeerConnection(_) => NegotiationStep::CreatePeerConnection,
            RealtimeWebrtcError::AddAudioTransceiver(_) => NegotiationStep::AddAudioTransceiver,
            RealtimeWebrtcError::AttachLocalAudio(_) => NegotiationStep::AttachLocalAudio,
            RealtimeWebrtcError::CreateOffer(_) => NegotiationStep::CreateOffer,
            RealtimeWebrtcError::SetLocalDescription(_) => NegotiationStep::SetLocalDescription,
            RealtimeWebrtcError::ParseAnswer(_) => NegotiationStep::ParseAnswer,
            RealtimeWebrtcError::SetRemoteDescription(_) => NegotiationStep::SetRemoteDescription,
        }
    }

    /// The reason carried by this error.
    pub fn detail(&self) -> (d: &String)
        ensures
            *d == error_detail(*self),
    {
        match self {
            RealtimeWebrtcError::CreatePeerConnection(d) => d,
            RealtimeWebrtcError::AddAudioTransceiver(d) => d,
            RealtimeWebrtcError::AttachLocalAudio(d) => d,
            RealtimeWebrtcError::CreateOffer(d) => d,
            RealtimeWebrtcError::SetLocalDescription(d) => d,
            RealtimeWebrtcError::ParseAnswer(d) => d,
            RealtimeWebrtcError::SetRemoteDescription(d) => d,
        }
    }

    /// The human-readable message of this error: what failed, a colon, and the reason.
    pub fn message(&self) -> (m: String)
        ensures
            m@ == step_failure_prefix(error_step(*self)) + error_detail(*self)@,
    {
        let mut m = match self.step() {
            NegotiationStep::CreatePeerConnection => String::from_str("failed to create WebRTC peer connection: "),
            NegotiationStep::AddAudioTransceiver => String::from_str("failed to add WebRTC audio transceiver: "),
            NegotiationStep::AttachLocalAudio => String::from_str("failed to attach platform microphone to WebRTC sender: "),
            NegotiationStep::CreateOffer => String::from_str("failed to create WebRTC offer: "),
            NegotiationStep::SetLocalDescription => String::from_str("failed to set local WebRTC description: "),
            NegotiationStep::ParseAnswer => String::from_str("failed to parse WebRTC answer SDP: "),
            NegotiationStep::SetRemoteDescription => String::from_str("failed to set remote WebRTC description: "),
        };
        m.append(self.detail().as_str());
        m
    }
}


/// The steps that creating an SDP offer runs, in order.
pub open spec fn offer_plan() -> Seq<NegotiationStep> {
    seq![
        NegotiationStep::CreatePeerConnection,
        NegotiationStep::AddAudioTransceiver,
        NegotiationStep::AttachLocalAudio,
        NegotiationStep::CreateOffer,
        NegotiationStep::SetLocalDescription,
    ]
}

/// The steps that applying an SDP answer runs, in order.
pub open spec fn answer_plan() -> Seq<NegotiationStep> {
    seq![NegotiationStep::ParseAnswer, NegotiationStep::SetRemoteDescription]
}

/// What recording the outcome of the next step does to a negotiation that has
/// completed `completed` steps of `plan`: success moves on by one step, a failure
/// ends the negotiation with the error that names the step.
pub open spec fn record_outcome(
    plan: Seq<NegotiationStep>,
    completed: nat,
    outcome: Result<(), String>,
) -> Result<nat, RealtimeWebrtcError> {
    match outcome {
        Ok(_) => Ok(completed + 1),
        Err(detail) => Err(step_error(plan[completed as int], detail)),
    }
}

/// The result of running every step of `plan` in order, where step `i` ends with
/// `outcomes[i]`: the error of the first step that fails, or success when none does.
pub open spec fn negotiation_result(
    plan: Seq<NegotiationStep>,
    outcomes: Seq<Result<(), String>>,
) -> Result<(), RealtimeWebrtcError>
    decreases plan.len(),
{
    if plan.len() == 0 || outcomes.len() == 0 {
        Ok(())
    } else {
        match outcomes[0] {
            Ok(_) => negotiation_result(plan.drop_first(), outcomes.drop_first()),
            Err(detail) => Err(step_error(plan[0], detail)),
        }
    }
}

/// Progress through the steps of creating an offer or applying an answer.
pub struct Negotiation {
    steps: Vec<NegotiationStep>,
    completed: usize,
}

impl Negotiation {
    #[verifier::type_invariant]
    spec fn well_formed(self) -> bool {
        self.completed <= self.steps@.len()
    }

    /// The steps this negotiation runs, in order.
    pub closed spec fn plan(self) -> Seq<NegotiationStep> {
        self.steps@
    }

    /// How many steps have succeeded so far.
    pub closed spec fn completed(self) -> nat {
        self.completed as nat
    }

    /// A negotiation that creates an SDP offer, with no step run yet.
    pub fn for_offer() -> (n: Self)
        ensures
            n.plan() == offer_plan(),
            n.completed() == 0,
    {
        let mut steps: Vec<NegotiationStep> = Vec::new();
        steps.push(NegotiationStep::CreatePeerConnection);
        steps.push(NegotiationStep::AddAudioTransceiver);
        steps.push(NegotiationStep::AttachLocalAudio);
        steps.push(NegotiationStep::CreateOffer);
        steps.push(NegotiationStep::SetLocalDescription);
        assert(steps@ =~= offer_plan());
        Negotiation { steps, completed: 0 }
    }

    /// A negotiation that applies an SDP answer, with no step run yet.
    pub fn for_answer() -> (n: Self)
        ensures
            n.plan() == answer_plan(),
            n.completed() == 0,
    {
        let mut steps: Vec<NegotiationStep> = Vec::new();
        steps.push(NegotiationStep::ParseAnswer);
        steps.push(NegotiationStep::SetRemoteDescription);
        assert(steps@ =~= answer_plan());
        Negotiation { steps, completed: 0 }
    }

    /// The step to run next, or `None` once every step has succeeded.
    pub fn next_step(&self) -> (s: Option<NegotiationStep>)
        ensures
            self.completed() <= self.plan().len(),
            s == (if self.completed() < self.plan().len() {
                Some(self.plan()[self.completed() as int])
            } else {
                None::<NegotiationStep>
            }),
    {
        proof {
            use_type_invariant(self);
        }
        if self.completed < self.steps.len() {
            Some(self.steps[self.completed])
        } else {
            None
        }
    }

    /// Whether every step has succeeded.
    pub fn is_complete(&self) -> (b: bool)
        ensures
            self.completed() <= self.plan().len(),
            b == (self.completed() == self.plan().len()),
    {
        proof {
            use_type_invariant(self);
        }
        self.completed == self.steps.len()
    }

    /// Records how the next step ended. On success the negotiation moves on to the
    /// following step; on failure it ends with the error that names the failed step.
    pub fn record(self, outcome: Result<(), String>) -> (r: Result<Negotiation, RealtimeWebrtcError>)
        requires
            self.completed() < self.plan().len(),
        ensures
            match (record_outcome(self.plan(), self.completed(), outcome), r) {
                (Ok(c), Ok(n)) => n.plan() == self.plan() && n.completed() == c,
                (Err(e), Err(f)) => e == f,
                _ => false,
            },
    {
        proof {
            use_type_invariant(&self);
        }
        match outcome {
            Ok(()) => {
                let planned = self.steps.len();
                assert(self.completed < planned);
                let next = self.completed + 1;
                let Negotiation { steps, completed: _ } = self;
                Ok(Negotiation { steps, completed: next })
            },
            Err(detail) => {
                let step = self.steps[self.completed];
                Err(RealtimeWebrtcError::from_step(step, detail))
            },
        }
    }
}

/// The open or closed state of a media session's peer connection.
pub struct CloseLatch {
    closed: bool,
}

impl View for CloseLatch {
    type V = bool;

    closed spec fn view(&self) -> bool {
        self.closed
    }
}

/// What one request to close does: the session ends up closed, and the peer
/// connection is to be closed now exactly when the session was still open.
pub open spec fn close_step(was_closed: bool) -> (bool, bool) {
    (true, !was_closed)
}

impl CloseLatch {
    /// The state of a freshly created session: open.
    pub fn new() -> (l: Self)
        ensures
            !l@,
    {
        CloseLatch { closed: false }
    }

    /// Whether the session has been closed.
    pub fn is_closed(&self) -> (b: bool)
        ensures
            b == self@,
    {
        self.closed
    }

    /// Marks the session closed and says whether the peer connection must be
    /// closed now, which is the case only for the first request.
    pub fn close(&mut self) -> (close_now: bool)
        ensures
            (final(self)@, close_now) == close_step(old(self)@),
    {
        let close_now = !self.closed;
        self.closed = true;
        close_now
    }
}

/// How many times the peer connection is closed when `requests` close requests
/// reach a session whose state starts as `was_closed`.
pub open spec fn connection_closes(was_closed: bool, requests: nat) -> nat
    decreases requests,
{
    if requests == 0 {
        0
    } else {
        let (now_closed, close_now) = close_step(was_closed);
        (if close_now { 1nat } else { 0nat }) + connection_closes(now_closed, (requests - 1) as nat)
    }
}

/// However many times an open session is asked to close (at least once), its peer
/// connection is closed exactly once; a closed session never closes it again.
pub proof fn lemma_connection_closed_once(requests: nat)
    ensures
        requests >= 1 ==> connection_closes(false, requests) == 1,
        connection_closes(true, requests) == 0,
    decreases requests,
{
    if requests > 0 {
        lemma_connection_closed_once((requests - 1) as nat);
    }
}

/// An error names the step it was made for and keeps its reason, so two failures
/// give the same error only when the same step failed for the same reason.
pub proof fn lemma_error_names_its_step(step: NegotiationStep, detail: String)
    ensures
        error_step(step_error(step, detail)) == step,
        error_detail(step_error(step, detail)) == detail,
        forall|other: NegotiationStep, d: String|
            step_error(other, d) == step_error(step, detail) ==> other == step && d == detail,
{
    assert forall|other: NegotiationStep, d: String|
        step_error(other, d) == step_error(step, detail) implies other == step && d == detail by {
        assert(error_step(step_error(other, d)) == other);
        assert(error_detail(step_error(other, d)) == d);
    }
}

/// Driving a negotiation that has completed `completed` steps with the outcomes of
/// the remaining steps ends as `negotiation_result` says: with the error of the
/// first step that fails, every earlier step having succeeded, or with all steps done.
pub proof fn lemma_first_failure_decides(
    plan: Seq<NegotiationStep>,
    completed: nat,
    outcomes: Seq<Result<(), String>>,
)
    requires
        completed <= plan.len(),
        outcomes.len() == plan.len() - completed,
    ensures
        match negotiation_result(plan.skip(completed as int), outcomes) {
            Ok(_) => forall|i: int| 0 <= i < outcomes.len() ==> outcomes[i] is Ok,
            Err(e) => exists|k: int|
                0 <= k < outcomes.len() && (forall|i: int| 0 <= i < k ==> outcomes[i] is Ok)
                    && outcomes[k] is Err && record_outcome(plan, (completed + k) as nat, outcomes[k])
                    == Err::<nat, RealtimeWebrtcError>(e),
        },
    decreases outcomes.len(),
{
    let rest = plan.skip(completed as int);
    if outcomes.len() == 0 {
    } else {
        assert(rest[0] == plan[completed as int]);
        match outcomes[0] {
            Ok(_) => {
                assert(rest.drop_first() =~= plan.skip(completed + 1int));
                lemma_first_failure_decides(plan, completed + 1, outcomes.drop_first());
                match negotiation_result(plan.skip(completed + 1int), outcomes.drop_first()) {
                    Ok(_) => {
                        assert forall|i: int| 0 <= i < outcomes.len() implies outcomes[i] is Ok by {
                            if i > 0 {
                                assert(outcomes.drop_first()[i - 1] == outcomes[i]);
                            }
                        }
                    },
                    Err(e) => {
                        let k = choose|k: int|
                            0 <= k < outcomes.drop_first().len() && (forall|i: int|
                                0 <= i < k ==> outcomes.drop_first()[i] is Ok)
                                && outcomes.drop_first()[k] is Err && record_outcome(
                                plan,
                                (completed + 1 + k) as nat,
                                outcomes.drop_first()[k],
                            ) == Err::<nat, RealtimeWebrtcError>(e);
                        assert(outcomes[k + 1] == outcomes.drop_first()[k]);
                        assert forall|i: int| 0 <= i < k + 1 implies outcomes[i] is Ok by {
                            if i > 0 {
                                assert(outcomes.drop_first()[i - 1] == outcomes[i]);
                            }
                        }
                    },
                }
            },
            Err(detail) => {
                assert(record_outcome(plan, completed, outcomes[0]) == Err::<nat, RealtimeWebrtcError>(
                    step_error(plan[completed as int], detail),
                ));
            },
        }
    }
}

/// Direction of the audio transceiver that an offer adds.
#[derive(Clone, Copy, Debug, PartialEq, Eq, Structural)]
pub enum TransceiverDirection {
    SendRecv,
    SendOnly,
    RecvOnly,
    Inactive,
}

/// How the audio transceiver of an offer is set up: its direction and the media
/// stream ids it belongs to; it is added with no explicit send encodings.
pub struct AudioTransceiverSettings {
    pub direction: TransceiverDirection,
    pub stream_ids: Vec<String>,
}

/// The options an offer is created with.
#[derive(Clone, Copy, Debug, PartialEq, Eq, Structural)]
pub struct OfferSettings {
    pub ice_restart: bool,
    pub offer_to_receive_audio: bool,
    pub offer_to_receive_video: bool,
}

/// The transceiver an offer adds: send and receive audio, in the stream "realtime".
pub fn audio_transceiver_settings() -> (t: AudioTransceiverSettings)
    ensures
        t.direction == TransceiverDirection::SendRecv,
        t.stream_ids@.len() == 1,
        t.stream_ids@[0]@ == "realtime"@,
{
    let mut stream_ids: Vec<String> = Vec::new();
    stream_ids.push(String::from_str("realtime"));
    AudioTransceiverSettings { direction: TransceiverDirection::SendRecv, stream_ids }
}

/// The label of the local microphone track: "realtime-mic".
pub fn local_audio_track_label() -> (l: String)
    ensures
        l@ == "realtime-mic"@,
{
    String::from_str("realtime-mic")
}

/// An audio-only offer without an ICE restart.
pub fn offer_settings() -> (o: OfferSettings)
    ensures
        !o.ice_restart,
        o.offer_to_receive_audio,
        !o.offer_to_receive_video,
{
    OfferSettings { ice_restart: false, offer_to_receive_audio: true, offer_to_receive_video: false }
}

} // verus!
