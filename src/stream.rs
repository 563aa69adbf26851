//! Translation of a server-streamed chat response into named events for a
//! one-way event stream, with clean termination and cancellation.

use vstd::prelude::*;

verus! {

/// A frame of the server stream.
#[derive(Clone, Debug, PartialEq, Eq)]
pub enum InboundFrame {
    /// A piece of generated text.
    Token(String),
    /// A source citation, as serialized text.
    Source(String),
    /// Generation metrics, as serialized text.
    Metrics(String),
    /// An error reported by the remote service.
    Error(String),
    /// A frame with no recognized variant.
    Unrecognized,
}

/// What the translator learns next about the stream and its consumer.
#[derive(Clone, Debug, PartialEq, Eq)]
pub enum StreamInput {
    /// The next frame arrived.
    Frame(InboundFrame),
    /// The remote stream ended normally.
    End,
    /// The transport failed, with a description.
    Failure(String),
    /// The downstream consumer went away.
    ConsumerGone,
}

/// Names of outbound events.
#[derive(Clone, Copy, Debug, PartialEq, Eq, Structural)]
pub enum EventName {
    Token,
    Source,
    Metrics,
    Error,
    Heartbeat,
}

impl EventName {
    /// The name as it appears on the event stream.
    pub open spec fn text_spec(self) -> Seq<char> {
        match self {
            EventName::Token => "token"@,
            EventName::Source => "source"@,
            EventName::Metrics => "metrics"@,
            EventName::Error => "error"@,
            EventName::Heartbeat => "heartbeat"@,
        }
    }

    /// The name as it appears on the event stream.
    pub fn as_str(&self) -> (r: &'static str)
        ensures
            r@ == self.text_spec(),
    {
        match self {
            EventName::Token => "token",
            EventName::Source => "source",
            EventName::Metrics => "metrics",
            EventName::Error => "error",
            EventName::Heartbeat => "heartbeat",
        }
    }
}

/// A named event for the downstream consumer.
#[derive(Clone, Debug, PartialEq, Eq)]
pub struct OutboundEvent {
    pub name: EventName,
    pub data: String,
}

impl View for OutboundEvent {
    type V = (EventName, Seq<char>);

    open spec fn view(&self) -> (EventName, Seq<char>) {
        (self.name, self.data@)
    }
}

/// Where a translator is in the life of one streaming call.
#[derive(Clone, Copy, Debug, PartialEq, Eq, Structural)]
pub enum TranslatorState {
    /// Stream established, nothing relayed yet.
    Open,
    /// At least one frame relayed, no terminal event yet.
    Relaying,
    /// The remote stream ended normally.
    Closed,
    /// The remote stream failed.
    Failed,
    /// The consumer went away and the remote call was cancelled.
    Cancelled,
}

/// What the caller does after one input.
#[derive(Clone, Debug, PartialEq, Eq)]
pub struct StreamAction {
    /// The event to publish, if any.
    pub event: Option<OutboundEvent>,
    /// Close the outbound sink.
    pub close_sink: bool,
    /// Cancel the remote call.
    pub cancel_remote: bool,
}

/// An action seen as plain values: the event, whether to close the sink,
/// whether to cancel the remote call.
pub type ActionView = (Option<(EventName, Seq<char>)>, bool, bool);

impl View for StreamAction {
    type V = ActionView;

    open spec fn view(&self) -> ActionView {
        let event = match self.event {
            Some(e) => Some(e@),
            None => None,
        };
        (event, self.close_sink, self.cancel_remote)
    }
}

/// Prefix of the message of the error event that a transport failure raises.
pub open spec fn failure_prefix() -> Seq<char> {
    "Stream error: "@
}

/// The event that relays a frame.
pub open spec fn frame_event(frame: InboundFrame) -> (EventName, Seq<char>) {
    match frame {
        InboundFrame::Token(t) => (EventName::Token, t@),
        InboundFrame::Source(s) => (EventName::Source, s@),
        InboundFrame::Metrics(m) => (EventName::Metrics, m@),
        InboundFrame::Error(e) => (EventName::Error, e@),
        InboundFrame::Unrecognized => (EventName::Heartbeat, Seq::empty()),
    }
}

/// The states after which nothing more is relayed.
pub open spec fn is_terminal(state: TranslatorState) -> bool {
    match state {
        TranslatorState::Closed | TranslatorState::Failed | TranslatorState::Cancelled => true,
        _ => false,
    }
}

/// The next state and the action for one input. An error frame or a
/// transport failure raises one error event and closes the sink; the end of
/// the stream closes it silently; a departed consumer closes it and cancels
/// the remote call; once terminal, inputs are ignored.
pub open spec fn step_spec(state: TranslatorState, input: StreamInput) -> (TranslatorState, ActionView) {
    if is_terminal(state) {
        (state, (None, false, false))
    } else {
        match input {
            StreamInput::Frame(f) => match f {
                InboundFrame::Error(e) => (TranslatorState::Failed, (Some((EventName::Error, e@)), true, true)),
                _ => (TranslatorState::Relaying, (Some(frame_event(f)), false, false)),
            },
            StreamInput::End => (TranslatorState::Closed, (None, true, false)),
            StreamInput::Failure(m) => (
                TranslatorState::Failed,
                (Some((EventName::Error, failure_prefix() + m@)), true, false),
            ),
            StreamInput::ConsumerGone => (TranslatorState::Cancelled, (None, true, true)),
        }
    }
}

/// The events published while the inputs are fed in order, from `state`.
pub open spec fn run_events(state: TranslatorState, inputs: Seq<StreamInput>) -> Seq<(EventName, Seq<char>)>
    decreases inputs.len(),
{
    if inputs.len() == 0 {
        Seq::empty()
    } else {
        let (next, action) = step_spec(state, inputs[0]);
        let rest = run_events(next, inputs.drop_first());
        match action.0 {
            Some(e) => seq![e] + rest,
            None => rest,
        }
    }
}

/// The state reached after the inputs are fed in order, from `state`.
pub open spec fn run_state(state: TranslatorState, inputs: Seq<StreamInput>) -> TranslatorState
    decreases inputs.len(),
{
    if inputs.len() == 0 {
        state
    } else {
        run_state(step_spec(state, inputs[0]).0, inputs.drop_first())
    }
}

/// The translator of one streaming call.
#[derive(Clone, Copy, Debug)]
pub struct StreamTranslator {
    pub state: TranslatorState,
}

/// Relays one frame as its named event.
pub fn translate_frame(frame: InboundFrame) -> (r: OutboundEvent)
    ensures
        r@ == frame_event(frame),
{
    match frame {
        InboundFrame::Token(t) => OutboundEvent { name: EventName::Token, data: t },
        InboundFrame::Source(s) => OutboundEvent { name: EventName::Source, data: s },
        InboundFrame::Metrics(m) => OutboundEvent { name: EventName::Metrics, data: m },
        InboundFrame::Error(e) => OutboundEvent { name: EventName::Error, data: e },
        InboundFrame::Unrecognized => OutboundEvent { name: EventName::Heartbeat, data: String::new() },
    }
}

impl StreamTranslator {
    /// A translator for a freshly opened stream.
    pub fn new() -> (r: StreamTranslator)
        ensures
            r.state == TranslatorState::Open,
    {
        StreamTranslator { state: TranslatorState::Open }
    }

    /// Whether the translator has reached a terminal state.
    pub fn is_finished(&self) -> (r: bool)
        ensures
            r == is_terminal(self.state),
    {
        match self.state {
            TranslatorState::Closed | TranslatorState::Failed | TranslatorState::Cancelled => true,
            _ => false,
        }
    }

    /// Takes the next input and says what to publish, close or cancel.
    pub fn on_input(&mut self, input: StreamInput) -> (r: StreamAction)
        ensures
            (final(self).state, r@) == step_spec(old(self).state, input),
    {
        if self.is_finished() {
            return StreamAction { event: None, close_sink: false, cancel_remote: false };
        }
        match input {
            StreamInput::Frame(f) => match f {
                InboundFrame::Error(e) => {
                    self.state = TranslatorState::Failed;
                    StreamAction {
                        event: Some(OutboundEvent { name: EventName::Error, data: e }),
                        close_sink: true,
                        cancel_remote: true,
                    }
                },
                _ => {
                    self.state = TranslatorState::Relaying;
                    StreamAction { event: Some(translate_frame(f)), close_sink: false, cancel_remote: false }
                },
            },
            StreamInput::End => {
                self.state = TranslatorState::Closed;
                StreamAction { event: None, close_sink: true, cancel_remote: false }
            },
            StreamInput::Failure(m) => {
                self.state = TranslatorState::Failed;
                let mut text = "Stream error: ".to_owned();
                text.append(m.as_str());
                StreamAction {
                    event: Some(OutboundEvent { name: EventName::Error, data: text }),
                    close_sink: true,
                    cancel_remote: false,
                }
            },
            StreamInput::ConsumerGone => {
                self.state = TranslatorState::Cancelled;
                StreamAction { event: None, close_sink: true, cancel_remote: true }
            },
        }
    }
}

/// Frames that the translator relays and does not treat as a failure.
pub open spec fn relayable(frames: Seq<InboundFrame>) -> bool {
    forall|i: int| 0 <= i < frames.len() ==> !(#[trigger] frames[i] is Error)
}

/// The inputs of a stream that delivers `frames` and then ends.
pub open spec fn frames_then(frames: Seq<InboundFrame>, last: StreamInput) -> Seq<StreamInput> {
    frames.map_values(|f: InboundFrame| StreamInput::Frame(f)) + seq![last]
}

proof fn lemma_relay_from(state: TranslatorState, frames: Seq<InboundFrame>, last: StreamInput)
    requires
        !is_terminal(state),
        relayable(frames),
    ensures
        run_events(state, frames_then(frames, last))
            == frames.map_values(|f: InboundFrame| frame_event(f)) + run_events(
                if frames.len() == 0 { state } else { TranslatorState::Relaying },
                seq![last],
            ),
    decreases frames.len(),
{
    let inputs = frames_then(frames, last);
    if frames.len() == 0 {
        assert(inputs =~= seq![last]);
        assert(frames.map_values(|f: InboundFrame| frame_event(f)) =~= Seq::<(EventName, Seq<char>)>::empty());
    } else {
        let rest = frames.drop_first();
        assert(!(frames[0] is Error));
        assert(relayable(rest)) by {
            assert forall|i: int| 0 <= i < rest.len() implies !(#[trigger] rest[i] is Error) by {
                assert(rest[i] == frames[i + 1]);
            }
        }
        assert(inputs.drop_first() =~= frames_then(rest, last));
        lemma_relay_from(TranslatorState::Relaying, rest, last);
        assert(frames.map_values(|f: InboundFrame| frame_event(f))
            =~= seq![frame_event(frames[0])] + rest.map_values(|f: InboundFrame| frame_event(f)));
    }
}

/// A stream that delivers frames, none an error, and then ends, is relayed
/// one event per frame, in the order of arrival, and leaves the translator
/// closed.
pub proof fn lemma_relay_in_order(frames: Seq<InboundFrame>)
    requires
        relayable(frames),
    ensures
        run_events(TranslatorState::Open, frames_then(frames, StreamInput::End))
            == frames.map_values(|f: InboundFrame| frame_event(f)),
{
    lemma_relay_from(TranslatorState::Open, frames, StreamInput::End);
    let s = if frames.len() == 0 { TranslatorState::Open } else { TranslatorState::Relaying };
    let end = seq![StreamInput::End];
    assert(end[0] == StreamInput::End);
    assert(end.drop_first() =~= Seq::<StreamInput>::empty());
    assert(run_events(TranslatorState::Closed, end.drop_first()) =~= Seq::<(EventName, Seq<char>)>::empty());
    assert(run_events(s, seq![StreamInput::End]) =~= Seq::<(EventName, Seq<char>)>::empty());
    assert(frames.map_values(|f: InboundFrame| frame_event(f)) + Seq::<(EventName, Seq<char>)>::empty()
        =~= frames.map_values(|f: InboundFrame| frame_event(f)));
}

/// Once terminal, a translator publishes nothing more and stays where it is,
/// whatever inputs follow.
pub proof fn lemma_terminal_is_silent(state: TranslatorState, inputs: Seq<StreamInput>)
    requires
        is_terminal(state),
    ensures
        run_events(state, inputs) == Seq::<(EventName, Seq<char>)>::empty(),
        run_state(state, inputs) == state,
    decreases inputs.len(),
{
    if inputs.len() > 0 {
        lemma_terminal_is_silent(state, inputs.drop_first());
    }
}

/// When the consumer goes away before the stream is over, the remote call is
/// cancelled at once, the sink is closed, and no later frame is processed.
pub proof fn lemma_consumer_gone_cancels(state: TranslatorState, later: Seq<StreamInput>)
    requires
        !is_terminal(state),
    ensures
        step_spec(state, StreamInput::ConsumerGone).1 == (None::<(EventName, Seq<char>)>, true, true),
        run_events(state, seq![StreamInput::ConsumerGone] + later) == Seq::<(EventName, Seq<char>)>::empty(),
        run_state(state, seq![StreamInput::ConsumerGone] + later) == TranslatorState::Cancelled,
{
    let inputs = seq![StreamInput::ConsumerGone] + later;
    assert(inputs[0] == StreamInput::ConsumerGone);
    assert(inputs.drop_first() =~= later);
    lemma_terminal_is_silent(TranslatorState::Cancelled, later);
}

} // verus!
