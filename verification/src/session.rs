//! One publish session: from the broker's address to the outcome of one
//! attempt to connect, authenticate and publish. The session decides; its
//! caller opens the transport, talks to the broker, and reports back.

use crate::message::{telemetry_message, Message, MessageView};
use crate::nat64::{AddressPrefix, EndpointView, TranslatedEndpoint};
use rust_mqtt::packet::v5::reason_codes::ReasonCode;
use vstd::prelude::*;

verus! {

/// The number under which the broker client reports a failure of the network
/// rather than an answer of the broker.
pub const NETWORK_ERROR_CODE: u8 = 0xFF;

/// Seconds after which an attempt to open the transport is given up.
pub const CONNECT_TIMEOUT_SECS: u64 = 15;

/// How the broker is named in the configuration.
#[derive(Clone, Debug, PartialEq, Eq)]
pub enum BrokerHost {
    /// By a name, which a resolver turns into an IPv4 address.
    Name(String),
    /// By its IPv4 address.
    Address([u8; 4]),
}

/// What the node presents to the broker in the handshake: its client
/// identifier, and a user name and a password where the broker asks for them.
#[derive(Clone, Debug, PartialEq, Eq)]
pub struct Credentials {
    pub client_id: String,
    pub username: Option<String>,
    pub password: Option<String>,
}

/// Credentials as a mathematical value.
pub struct CredentialsView {
    pub client_id: Seq<char>,
    pub username: Option<Seq<char>>,
    pub password: Option<Seq<char>>,
}

/// The characters of a text that may be absent.
pub open spec fn text_of(text: Option<String>) -> Option<Seq<char>> {
    match text {
        Some(present) => Some(present@),
        None => None,
    }
}

impl View for Credentials {
    type V = CredentialsView;

    open spec fn view(&self) -> CredentialsView {
        CredentialsView {
            client_id: self.client_id@,
            username: text_of(self.username),
            password: text_of(self.password),
        }
    }
}

/// A copy of a text that may be absent.
pub fn copy_text(text: &Option<String>) -> (copy: Option<String>)
    ensures
        text_of(copy) == text_of(*text),
{
    match text {
        Some(present) => Some(present.clone()),
        None => None,
    }
}

impl Credentials {
    /// A copy of the credentials.
    pub fn copy(&self) -> (copy: Credentials)
        ensures
            copy@ == self@,
    {
        Credentials {
            client_id: self.client_id.clone(),
            username: copy_text(&self.username),
            password: copy_text(&self.password),
        }
    }
}

/// Why a handshake with the broker failed.
#[derive(Clone, Copy, Debug, PartialEq, Eq, Structural)]
pub enum HandshakeFailure {
    /// The network failed underneath. Such a failure passes.
    NetworkError,
    /// The broker refused, with this reason code. A refusal may last: wrong
    /// credentials stay wrong, however often the session is repeated.
    Other(u8),
}

/// How one session ended.
#[derive(Clone, Copy, Debug, PartialEq, Eq, Structural)]
pub enum SessionOutcome {
    /// The transport was opened, the broker accepted the node, and the
    /// message was published.
    Published,
    /// The broker's name was not resolved, or the transport was not opened.
    TransportFailure,
    /// The handshake with the broker failed.
    HandshakeFailure(HandshakeFailure),
    /// The broker did not take the message.
    PublishFailure,
}

/// How loudly the outcome of a session is logged.
#[derive(Clone, Copy, Debug, PartialEq, Eq, Structural)]
pub enum Severity {
    Info,
    Warning,
    Error,
}

impl SessionOutcome {
    /// The severity of the outcome: a success informs, a failure that may
    /// pass warns, and a refusal by the broker, which a retry may never
    /// mend, is an error.
    pub open spec fn spec_severity(self) -> Severity {
        match self {
            SessionOutcome::Published => Severity::Info,
            SessionOutcome::HandshakeFailure(HandshakeFailure::Other(_)) => Severity::Error,
            _ => Severity::Warning,
        }
    }

    /// The severity with which the outcome is logged.
    pub fn severity(&self) -> (severity: Severity)
        ensures
            severity == self.spec_severity(),
    {
        match self {
            SessionOutcome::Published => Severity::Info,
            SessionOutcome::HandshakeFailure(HandshakeFailure::Other(_)) => Severity::Error,
            SessionOutcome::HandshakeFailure(HandshakeFailure::NetworkError) => Severity::Warning,
            SessionOutcome::TransportFailure => Severity::Warning,
            SessionOutcome::PublishFailure => Severity::Warning,
        }
    }
}

/// The failure that a reason code stands for.
pub open spec fn failure_of_code(code: u8) -> HandshakeFailure {
    if code == NETWORK_ERROR_CODE {
        HandshakeFailure::NetworkError
    } else {
        HandshakeFailure::Other(code)
    }
}

/// Classifies the reason code of a failed handshake.
pub fn classify_reason(code: u8) -> (failure: HandshakeFailure)
    ensures
        failure == failure_of_code(code),
{
    if code == NETWORK_ERROR_CODE {
        HandshakeFailure::NetworkError
    } else {
        HandshakeFailure::Other(code)
    }
}

/// `rust_mqtt`'s reason code: what its client returns as an error.
#[verifier::external_type_specification]
#[verifier::external_body]
pub struct ExReasonCode(ReasonCode);

/// The number of a reason code: the byte that stands for it on the wire,
/// and `0xFF` for the client's own report of a failed network.
pub uninterp spec fn reason_code_number(code: ReasonCode) -> u8;

/// `u8::from` for a `ReasonCode`: the number of the reason code, which
/// depends on the code alone.
#[verifier::external_body]
fn reason_number(code: ReasonCode) -> (number: u8)
    ensures
        number == reason_code_number(code),
{
    u8::from(code)
}

/// Classifies the error with which the broker client failed a handshake, by
/// the number of its reason code.
pub fn classify_handshake_error(code: ReasonCode) -> (failure: HandshakeFailure)
    ensures
        failure == failure_of_code(reason_code_number(code)),
{
    classify_reason(reason_number(code))
}

/// What a session is waiting for.
#[derive(Clone, Copy, Debug, PartialEq, Eq, Structural)]
pub enum SessionPhase {
    /// For the IPv4 address behind the broker's name.
    Resolving,
    /// For the transport to open.
    Connecting,
    /// For the broker's answer to the handshake.
    Handshaking,
    /// For the broker's answer to the message.
    Publishing,
    /// For nothing: the session is over.
    Finished(SessionOutcome),
}

/// What the caller reports back to the session.
#[derive(Clone, Copy, Debug, PartialEq, Eq)]
pub enum SessionEvent {
    /// The resolver's answer: the broker's IPv4 address, or none.
    Resolved(Option<[u8; 4]>),
    /// Whether the transport was opened.
    Connected(bool),
    /// How the handshake went.
    HandshakeDone(Result<(), HandshakeFailure>),
    /// Whether the broker took the message.
    PublishDone(bool),
}

/// What the session asks of its caller.
#[derive(Clone, Debug, PartialEq, Eq)]
pub enum SessionAction {
    /// Resolve the broker's name.
    Resolve,
    /// Open the transport to this endpoint.
    Connect(TranslatedEndpoint),
    /// Perform the handshake with the broker, with these credentials.
    Handshake(Credentials),
    /// Publish this message.
    Publish(Message),
    /// Nothing more: the session ended with this outcome.
    Finish(SessionOutcome),
}

/// A session's request as a mathematical value.
pub enum ActionView {
    Resolve,
    Connect(EndpointView),
    Handshake(CredentialsView),
    Publish(MessageView),
    Finish(SessionOutcome),
}

impl View for SessionAction {
    type V = ActionView;

    open spec fn view(&self) -> ActionView {
        match *self {
            SessionAction::Resolve => ActionView::Resolve,
            SessionAction::Connect(endpoint) => ActionView::Connect(endpoint@),
            SessionAction::Handshake(credentials) => ActionView::Handshake(credentials@),
            SessionAction::Publish(message) => ActionView::Publish(message@),
            SessionAction::Finish(outcome) => ActionView::Finish(outcome),
        }
    }
}

/// The event came when the session or the supervisor was not waiting for it.
/// It was dropped, and nothing changed.
#[derive(Clone, Copy, Debug, PartialEq, Eq, Structural)]
pub struct OutOfTurn;

/// The first step of a session towards `broker`: a name is resolved first; an
/// address is translated at once, and the transport opened to the result.
pub open spec fn first_step(broker: BrokerHost, prefix: AddressPrefix, port: u16) -> (
    SessionPhase,
    ActionView,
) {
    match broker {
        BrokerHost::Name(_) => (SessionPhase::Resolving, ActionView::Resolve),
        BrokerHost::Address(ipv4) => (
            SessionPhase::Connecting,
            ActionView::Connect(prefix.spec_translate(ipv4@, port)),
        ),
    }
}

/// The step that follows `event` in `phase`: the next phase and the request
/// to the caller. There is none where the phase does not wait for the event.
pub open spec fn next_step(
    phase: SessionPhase,
    event: SessionEvent,
    prefix: AddressPrefix,
    port: u16,
    credentials: CredentialsView,
    reading: u32,
) -> Option<(SessionPhase, ActionView)> {
    match (phase, event) {
        (SessionPhase::Resolving, SessionEvent::Resolved(Some(ipv4))) => Some(
            (SessionPhase::Connecting, ActionView::Connect(prefix.spec_translate(ipv4@, port))),
        ),
        (SessionPhase::Resolving, SessionEvent::Resolved(None)) => Some(
            finished_with(SessionOutcome::TransportFailure),
        ),
        (SessionPhase::Connecting, SessionEvent::Connected(true)) => Some(
            (SessionPhase::Handshaking, ActionView::Handshake(credentials)),
        ),
        (SessionPhase::Connecting, SessionEvent::Connected(false)) => Some(
            finished_with(SessionOutcome::TransportFailure),
        ),
        (SessionPhase::Handshaking, SessionEvent::HandshakeDone(Ok(_))) => Some(
            (SessionPhase::Publishing, ActionView::Publish(telemetry_message(reading))),
        ),
        (SessionPhase::Handshaking, SessionEvent::HandshakeDone(Err(failure))) => Some(
            finished_with(SessionOutcome::HandshakeFailure(failure)),
        ),
        (SessionPhase::Publishing, SessionEvent::PublishDone(true)) => Some(
            finished_with(SessionOutcome::Published),
        ),
        (SessionPhase::Publishing, SessionEvent::PublishDone(false)) => Some(
            finished_with(SessionOutcome::PublishFailure),
        ),
        _ => None,
    }
}

/// The last step of a session that ends with `outcome`.
pub open spec fn finished_with(outcome: SessionOutcome) -> (SessionPhase, ActionView) {
    (SessionPhase::Finished(outcome), ActionView::Finish(outcome))
}

/// One attempt to publish one reading. Nothing of it outlives the attempt.
#[derive(Clone, Debug, PartialEq, Eq)]
pub struct PublishSession {
    phase: SessionPhase,
    prefix: AddressPrefix,
    port: u16,
    credentials: Credentials,
    reading: u32,
}

impl PublishSession {
    /// What the session is waiting for.
    pub closed spec fn spec_phase(self) -> SessionPhase {
        self.phase
    }

    /// The prefix under which the broker's address is translated.
    pub closed spec fn spec_prefix(self) -> AddressPrefix {
        self.prefix
    }

    /// The broker's port.
    pub closed spec fn spec_port(self) -> u16 {
        self.port
    }

    /// What the session presents to the broker.
    pub closed spec fn spec_credentials(self) -> CredentialsView {
        self.credentials@
    }

    /// The reading that the session publishes.
    pub closed spec fn spec_reading(self) -> u32 {
        self.reading
    }

    /// What a step of the session leaves as it is.
    pub open spec fn same_task_as(self, other: PublishSession) -> bool {
        &&& self.spec_prefix() == other.spec_prefix()
        &&& self.spec_port() == other.spec_port()
        &&& self.spec_credentials() == other.spec_credentials()
        &&& self.spec_reading() == other.spec_reading()
    }

    /// Starts a session that publishes `reading` to the broker `broker` on
    /// `port`, and says what to do first.
    pub fn begin(
        broker: &BrokerHost,
        prefix: AddressPrefix,
        port: u16,
        credentials: Credentials,
        reading: u32,
    ) -> (started: (PublishSession, SessionAction))
        ensures
            started.0.spec_prefix() == prefix,
            started.0.spec_port() == port,
            started.0.spec_credentials() == credentials@,
            started.0.spec_reading() == reading,
            (started.0.spec_phase(), started.1@) == first_step(*broker, prefix, port),
    {
        match broker {
            BrokerHost::Name(_) => (
                PublishSession {
                    phase: SessionPhase::Resolving,
                    prefix,
                    port,
                    credentials,
                    reading,
                },
                SessionAction::Resolve,
            ),
            BrokerHost::Address(ipv4) => (
                PublishSession {
                    phase: SessionPhase::Connecting,
                    prefix,
                    port,
                    credentials,
                    reading,
                },
                SessionAction::Connect(prefix.translate(*ipv4, port)),
            ),
        }
    }

    /// What the session is waiting for.
    pub fn phase(&self) -> (phase: SessionPhase)
        ensures
            phase == self.spec_phase(),
    {
        self.phase
    }

    /// The outcome of the session, once it is over.
    pub fn outcome(&self) -> (outcome: Option<SessionOutcome>)
        ensures
            outcome == match self.spec_phase() {
                SessionPhase::Finished(outcome) => Some(outcome),
                _ => None,
            },
    {
        match self.phase {
            SessionPhase::Finished(outcome) => Some(outcome),
            _ => None,
        }
    }

    /// Takes in what the caller reports and says what to do next. An event
    /// that the session is not waiting for is refused and changes nothing.
    pub fn on_event(&mut self, event: SessionEvent) -> (next: Result<SessionAction, OutOfTurn>)
        ensures
            final(self).same_task_as(*old(self)),
            match next_step(
                old(self).spec_phase(),
                event,
                old(self).spec_prefix(),
                old(self).spec_port(),
                old(self).spec_credentials(),
                old(self).spec_reading(),
            ) {
                Some(step) => next matches Ok(action) && final(self).spec_phase() == step.0
                    && action@ == step.1,
                None => next is Err && final(self).spec_phase() == old(self).spec_phase(),
            },
    {
        match (self.phase, event) {
            (SessionPhase::Resolving, SessionEvent::Resolved(Some(ipv4))) => {
                self.phase = SessionPhase::Connecting;
                Ok(SessionAction::Connect(self.prefix.translate(ipv4, self.port)))
            },
            (SessionPhase::Resolving, SessionEvent::Resolved(None)) => Ok(
                self.finish(SessionOutcome::TransportFailure),
            ),
            (SessionPhase::Connecting, SessionEvent::Connected(true)) => {
                self.phase = SessionPhase::Handshaking;
                Ok(SessionAction::Handshake(self.credentials.copy()))
            },
            (SessionPhase::Connecting, SessionEvent::Connected(false)) => Ok(
                self.finish(SessionOutcome::TransportFailure),
            ),
            (SessionPhase::Handshaking, SessionEvent::HandshakeDone(Ok(_))) => {
                self.phase = SessionPhase::Publishing;
                Ok(SessionAction::Publish(Message::telemetry(self.reading)))
            },
            (SessionPhase::Handshaking, SessionEvent::HandshakeDone(Err(failure))) => Ok(
                self.finish(SessionOutcome::HandshakeFailure(failure)),
            ),
            (SessionPhase::Publishing, SessionEvent::PublishDone(true)) => Ok(
                self.finish(SessionOutcome::Published),
            ),
            (SessionPhase::Publishing, SessionEvent::PublishDone(false)) => Ok(
                self.finish(SessionOutcome::PublishFailure),
            ),
            _ => Err(OutOfTurn),
        }
    }

    fn finish(&mut self, outcome: SessionOutcome) -> (action: SessionAction)
        ensures
            final(self).same_task_as(*old(self)),
            (final(self).spec_phase(), action@) == finished_with(outcome),
    {
        self.phase = SessionPhase::Finished(outcome);
        SessionAction::Finish(outcome)
    }
}

/// A session that is over takes no further event.
pub proof fn lemma_finished_takes_no_event(
    outcome: SessionOutcome,
    event: SessionEvent,
    prefix: AddressPrefix,
    port: u16,
    credentials: CredentialsView,
    reading: u32,
)
    ensures
        next_step(SessionPhase::Finished(outcome), event, prefix, port, credentials, reading)
            is None,
{
}

/// A message is published in one place only: after a handshake that the
/// broker accepted. It is the telemetry message of the session's reading.
pub proof fn lemma_publish_follows_handshake(
    phase: SessionPhase,
    event: SessionEvent,
    prefix: AddressPrefix,
    port: u16,
    credentials: CredentialsView,
    reading: u32,
)
    requires
        next_step(phase, event, prefix, port, credentials, reading) matches Some(step) && step.1
            is Publish,
    ensures
        phase == SessionPhase::Handshaking,
        event matches SessionEvent::HandshakeDone(Ok(_)),
        next_step(phase, event, prefix, port, credentials, reading) == Some(
            (SessionPhase::Publishing, ActionView::Publish(telemetry_message(reading))),
        ),
{
}

/// A session ends as published in one place only: after the broker took the
/// message.
pub proof fn lemma_published_means_taken(
    phase: SessionPhase,
    event: SessionEvent,
    prefix: AddressPrefix,
    port: u16,
    credentials: CredentialsView,
    reading: u32,
)
    requires
        next_step(phase, event, prefix, port, credentials, reading) matches Some(step) && step.0
            == SessionPhase::Finished(SessionOutcome::Published),
    ensures
        phase == SessionPhase::Publishing,
        event == SessionEvent::PublishDone(true),
{
}

} // verus!
