//! The TCP relay: what the outbound sender reports, and what the inbound
//! listener does with each thing that happens on its socket.

use crate::endpoint::RECEIVE_PORT;
use crate::text::{decode_strict, text_result};
use vstd::prelude::*;
use vstd::string::{StrSliceExecFns, StringExecFns};
use vstd::utf8::{
    decode_utf8, encode_utf8, encode_utf8_decode_utf8, encode_utf8_valid_utf8, valid_utf8,
};

verus! {

/// How an attempt to send one message ended.
#[derive(Clone, Debug, PartialEq, Eq)]
pub enum SendOutcome {
    /// The connection was made and the whole message was written.
    Sent,
    /// No connection was made; the text is the transport's description.
    ConnectFailed(String),
    /// The connection was made but the write failed; the text is the
    /// transport's description.
    WriteFailed(String),
}

/// What the sender reports for an outcome: a confirmation where the message
/// was written, else a failure that carries the transport's description. A
/// failed write is reported as a failed connection is.
pub open spec fn send_reply(outcome: SendOutcome) -> Result<Seq<char>, Seq<char>> {
    match outcome {
        SendOutcome::Sent => Ok("发送成功"@),
        SendOutcome::ConnectFailed(cause) => Err("连接 TTS 失败: "@ + cause@),
        SendOutcome::WriteFailed(cause) => Err("连接 TTS 失败: "@ + cause@),
    }
}

/// The bytes that are written for a message: its UTF-8 encoding and nothing
/// else, with no length before it and no mark behind it.
pub fn send_payload(message: &str) -> (bytes: Vec<u8>)
    ensures
        bytes@ == encode_utf8(message@),
{
    message.as_bytes_vec()
}

/// What the sender reports to its caller for an outcome.
pub fn send_result(outcome: SendOutcome) -> (reply: Result<String, String>)
    ensures
        text_result(reply) == send_reply(outcome),
{
    match outcome {
        SendOutcome::Sent => Ok("发送成功".to_owned()),
        SendOutcome::ConnectFailed(cause) => {
            let mut text = "连接 TTS 失败: ".to_owned();
            text.append(cause.as_str());
            Err(text)
        },
        SendOutcome::WriteFailed(cause) => {
            let mut text = "连接 TTS 失败: ".to_owned();
            text.append(cause.as_str());
            Err(text)
        },
    }
}

/// A message is confirmed exactly if it was written, and every failure ends
/// with the transport's description of its cause.
pub proof fn lemma_send_reply(outcome: SendOutcome)
    ensures
        send_reply(outcome) is Ok <==> outcome is Sent,
        match outcome {
            SendOutcome::Sent => true,
            SendOutcome::ConnectFailed(cause) | SendOutcome::WriteFailed(cause) => {
                let text = send_reply(outcome)->Err_0;
                text.len() >= cause@.len() && text.skip(text.len() - cause@.len()) == cause@
            },
        },
{
    match outcome {
        SendOutcome::Sent => {},
        SendOutcome::ConnectFailed(cause) | SendOutcome::WriteFailed(cause) => {
            let text = send_reply(outcome)->Err_0;
            assert(text.skip(text.len() - cause@.len()) =~= cause@);
        },
    }
}

/// An event for the host application.
#[derive(Clone, Debug, PartialEq, Eq)]
pub struct Event {
    pub name: String,
    pub payload: String,
}

impl View for Event {
    type V = (Seq<char>, Seq<char>);

    open spec fn view(&self) -> (Seq<char>, Seq<char>) {
        (self.name@, self.payload@)
    }
}

/// The message that the bytes of one connection carry: their text where they
/// are valid UTF-8, and none where they are not.
pub open spec fn message_of(bytes: Seq<u8>) -> Option<Seq<char>> {
    if valid_utf8(bytes) {
        Some(decode_utf8(bytes))
    } else {
        None
    }
}

/// The event that the bytes of one connection give rise to: a `tts-message`
/// with their text, or none where they are not valid UTF-8.
pub open spec fn event_of(bytes: Seq<u8>) -> Option<(Seq<char>, Seq<char>)> {
    match message_of(bytes) {
        Some(text) => Some(("tts-message"@, text)),
        None => None,
    }
}

/// The event for everything that one connection sent before it was closed.
pub fn decode_message(bytes: Vec<u8>) -> (event: Option<Event>)
    ensures
        match event {
            Some(e) => event_of(bytes@) == Some(e@),
            None => event_of(bytes@) is None,
        },
{
    match decode_strict(bytes) {
        Some(payload) => Some(Event { name: "tts-message".to_owned(), payload }),
        None => None,
    }
}

/// Where the inbound listener stands.
#[derive(Clone, Copy, Debug, PartialEq, Eq)]
pub enum ListenerState {
    /// The bind has been asked for and not yet answered.
    Binding,
    /// The port is bound; connections are taken one after the other.
    Listening,
    /// The bind failed; the listener does nothing any more.
    Disabled,
}

/// What happened on the listener's socket.
#[derive(Clone, Debug, PartialEq, Eq)]
pub enum ListenerInput {
    /// The port was bound.
    Bound,
    /// The port could not be bound.
    BindFailed,
    /// A connection was accepted and read until its peer closed it; these are
    /// all its bytes.
    Received(Vec<u8>),
    /// Accepting or reading a connection failed.
    ConnectionFailed,
}

/// What the listener's driver does next.
#[derive(Clone, Debug, PartialEq, Eq)]
pub enum ListenerAction {
    /// Bind this local port.
    Bind(u16),
    /// Accept the next connection and read it to its end.
    Accept,
    /// Hand this event to the host, then accept the next connection.
    Emit(Event),
    /// Stop; nothing is listening.
    Stop,
}

/// An action as plain values.
pub enum ActionView {
    Bind(u16),
    Accept,
    Emit(Seq<char>, Seq<char>),
    Stop,
}

impl View for ListenerAction {
    type V = ActionView;

    open spec fn view(&self) -> ActionView {
        match *self {
            ListenerAction::Bind(port) => ActionView::Bind(port),
            ListenerAction::Accept => ActionView::Accept,
            ListenerAction::Emit(event) => ActionView::Emit(event.name@, event.payload@),
            ListenerAction::Stop => ActionView::Stop,
        }
    }
}

/// The state after `input`. A bound listener stays bound whatever happens to
/// a connection; a listener whose bind failed stays disabled; while the bind
/// is unanswered, anything but its answer changes nothing.
pub open spec fn next_state(state: ListenerState, input: ListenerInput) -> ListenerState {
    match state {
        ListenerState::Binding => match input {
            ListenerInput::Bound => ListenerState::Listening,
            ListenerInput::BindFailed => ListenerState::Disabled,
            _ => ListenerState::Binding,
        },
        ListenerState::Listening => ListenerState::Listening,
        ListenerState::Disabled => ListenerState::Disabled,
    }
}

/// The action after `input`. A bound listener emits one event for every
/// connection whose bytes are valid UTF-8 and goes on to the next connection
/// after every other input; a failed bind is passed over in silence.
pub open spec fn next_action(state: ListenerState, input: ListenerInput) -> ActionView {
    match state {
        ListenerState::Binding => match input {
            ListenerInput::Bound => ActionView::Accept,
            ListenerInput::BindFailed => ActionView::Stop,
            _ => ActionView::Bind(RECEIVE_PORT),
        },
        ListenerState::Listening => match input {
            ListenerInput::Received(bytes) => match event_of(bytes@) {
                Some(event) => ActionView::Emit(event.0, event.1),
                None => ActionView::Accept,
            },
            _ => ActionView::Accept,
        },
        ListenerState::Disabled => ActionView::Stop,
    }
}

/// The listener's first state and action: bind the receive port.
pub fn listener_start() -> (first: (ListenerState, ListenerAction))
    ensures
        first.0 == ListenerState::Binding,
        first.1@ == ActionView::Bind(RECEIVE_PORT),
{
    (ListenerState::Binding, ListenerAction::Bind(RECEIVE_PORT))
}

/// The listener's next state and action after `input`.
pub fn listener_step(state: ListenerState, input: ListenerInput) -> (next: (
    ListenerState,
    ListenerAction,
))
    ensures
        next.0 == next_state(state, input),
        next.1@ == next_action(state, input),
{
    match state {
        ListenerState::Binding => match input {
            ListenerInput::Bound => (ListenerState::Listening, ListenerAction::Accept),
            ListenerInput::BindFailed => (ListenerState::Disabled, ListenerAction::Stop),
            _ => (ListenerState::Binding, ListenerAction::Bind(RECEIVE_PORT)),
        },
        ListenerState::Listening => match input {
            ListenerInput::Received(bytes) => match decode_message(bytes) {
                Some(event) => (ListenerState::Listening, ListenerAction::Emit(event)),
                None => (ListenerState::Listening, ListenerAction::Accept),
            },
            _ => (ListenerState::Listening, ListenerAction::Accept),
        },
        ListenerState::Disabled => (ListenerState::Disabled, ListenerAction::Stop),
    }
}

/// Whatever happens to a connection, a bound listener is still bound
/// afterwards and goes on: it never stops.
pub proof fn lemma_listening_goes_on(input: ListenerInput)
    ensures
        next_state(ListenerState::Listening, input) == ListenerState::Listening,
        next_action(ListenerState::Listening, input) != ActionView::Stop,
        !(next_action(ListenerState::Listening, input) is Bind),
{
}

/// A bound listener emits an event for a connection exactly if its bytes are
/// valid UTF-8, and the event then carries their text under the name
/// `tts-message`.
pub proof fn lemma_one_event_per_message(bytes: Vec<u8>)
    ensures
        valid_utf8(bytes@) ==> next_action(ListenerState::Listening, ListenerInput::Received(bytes))
            == ActionView::Emit("tts-message"@, decode_utf8(bytes@)),
        !valid_utf8(bytes@) ==> next_action(
            ListenerState::Listening,
            ListenerInput::Received(bytes),
        ) == ActionView::Accept,
{
}

/// What the sender writes for a message is read back by a listener as that
/// message.
pub proof fn lemma_relay_round_trip(message: Seq<char>)
    ensures
        message_of(encode_utf8(message)) == Some(message),
        event_of(encode_utf8(message)) == Some(("tts-message"@, message)),
{
    encode_utf8_valid_utf8(message);
    encode_utf8_decode_utf8(message);
}

/// A listener whose bind failed never binds, accepts or emits again.
pub proof fn lemma_disabled_stays_silent(input: ListenerInput)
    ensures
        next_state(ListenerState::Disabled, input) == ListenerState::Disabled,
        next_action(ListenerState::Disabled, input) == ActionView::Stop,
{
}

} // verus!
