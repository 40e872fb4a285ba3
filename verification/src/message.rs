use vstd::prelude::*;
use vstd::string::*;
use crate::errors::{RecvError, TxError};
use crate::wire::PROTOCOL_VERSION;

verus! {

// ---------------------------------------------------------------------------
// Messages
// ---------------------------------------------------------------------------

/// A notification forwarded from the sender's desktop.
#[derive(Debug)]
pub enum Notification {
    /// Something happened (a window was created).
    Popup { msg: String },
    /// A window asks for attention.
    Flash { msg: String },
}

/// What travels in a frame's payload.
#[derive(Debug)]
pub enum Message {
    /// The first message of each side: its protocol version and its name.
    Handshake { protocol_version: u8, peer_name: String },
    /// Sent by the sender when it has had nothing to send for a while.
    Heartbeat,
    /// A forwarded notification.
    Notification(Notification),
}

/// The handshake that a peer named `self_name` sends.
pub open spec fn spec_handshake_message(self_name: String) -> Message {
    Message::Handshake { protocol_version: PROTOCOL_VERSION, peer_name: self_name }
}

/// The handshake that a peer named `self_name` sends: this side's protocol
/// version and its name.
pub fn handshake_message(self_name: String) -> (m: Message)
    ensures
        m == spec_handshake_message(self_name),
{
    Message::Handshake { protocol_version: PROTOCOL_VERSION, peer_name: self_name }
}

/// The message that carries a notification.
pub fn notification_message(notification: Notification) -> (m: Message)
    ensures
        m == Message::Notification(notification),
{
    Message::Notification(notification)
}

/// The message that keeps a quiet connection alive.
pub fn heartbeat_message() -> (m: Message)
    ensures
        m == Message::Heartbeat,
{
    Message::Heartbeat
}

// ---------------------------------------------------------------------------
// Handshake
// ---------------------------------------------------------------------------

/// What the handshake that a peer answered gives: its name, if it speaks this
/// protocol version or an older one.
pub open spec fn spec_check_handshake(msg: Message) -> Result<String, TxError> {
    match msg {
        Message::Handshake { protocol_version, peer_name } => if protocol_version
            > PROTOCOL_VERSION {
            Err(TxError::IncompatibleProtocol { version: protocol_version })
        } else {
            Ok(peer_name)
        },
        _ => Err(TxError::HandshakeFailure),
    }
}

/// The peer's name from the message it answered with; a peer that speaks a
/// newer protocol is refused with its version; any message other than a
/// handshake fails the handshake.
pub fn check_handshake(msg: Message) -> (r: Result<String, TxError>)
    ensures
        r == spec_check_handshake(msg),
{
    match msg {
        Message::Handshake { protocol_version, peer_name } => {
            if protocol_version > PROTOCOL_VERSION {
                Err(TxError::IncompatibleProtocol { version: protocol_version })
            } else {
                Ok(peer_name)
            }
        },
        _ => Err(TxError::HandshakeFailure),
    }
}

/// Which side of the handshake a peer takes.
#[derive(Debug, Clone, Copy, PartialEq, Eq, Structural)]
pub enum HandshakeRole {
    /// The side that connected: it sends its handshake first.
    Initiator,
    /// The side that accepted: it answers a handshake with its own.
    Responder,
}

/// How far a handshake has come.
#[derive(Debug)]
pub enum HandshakeState {
    /// Nothing was done yet.
    Start,
    /// The initiator's handshake is on its way.
    Sending,
    /// Waiting for the peer's message.
    Receiving,
    /// The responder's answer is on its way; the handshake then ends so.
    Answering(Result<String, TxError>),
    /// The handshake has ended.
    Done,
}

/// What happened since the last step.
#[derive(Debug)]
pub enum HandshakeEvent {
    /// The handshake begins.
    Start,
    /// The message asked for was sent.
    Sent,
    /// A message arrived.
    Received(Message),
}

/// What the handshake asks for next.
#[derive(Debug)]
pub enum HandshakeAction {
    /// Send this message, then report `Sent`.
    Send(Message),
    /// Receive one message, then report it.
    Receive,
    /// The handshake ended: the peer's name, or why it failed.
    Finish(Result<String, TxError>),
}

/// One side of the handshake that opens each connection.
#[derive(Debug)]
pub struct Handshake {
    pub role: HandshakeRole,
    pub self_name: String,
    pub state: HandshakeState,
}

/// Whether `ev` is what a handshake in state `state` waits for.
pub open spec fn spec_expects(state: HandshakeState, ev: HandshakeEvent) -> bool {
    match (state, ev) {
        (HandshakeState::Start, HandshakeEvent::Start) => true,
        (HandshakeState::Sending, HandshakeEvent::Sent) => true,
        (HandshakeState::Receiving, HandshakeEvent::Received(_)) => true,
        (HandshakeState::Answering(_), HandshakeEvent::Sent) => true,
        _ => false,
    }
}

/// One step of a handshake: its next state and what it asks for.
pub open spec fn spec_handshake_step(h: Handshake, ev: HandshakeEvent) -> (
    HandshakeState,
    HandshakeAction,
) {
    match (h.state, ev) {
        (HandshakeState::Start, HandshakeEvent::Start) => match h.role {
            HandshakeRole::Initiator => (
                HandshakeState::Sending,
                HandshakeAction::Send(spec_handshake_message(h.self_name)),
            ),
            HandshakeRole::Responder => (HandshakeState::Receiving, HandshakeAction::Receive),
        },
        (HandshakeState::Sending, HandshakeEvent::Sent) => (
            HandshakeState::Receiving,
            HandshakeAction::Receive,
        ),
        (HandshakeState::Receiving, HandshakeEvent::Received(msg)) => match h.role {
            HandshakeRole::Initiator => (
                HandshakeState::Done,
                HandshakeAction::Finish(spec_check_handshake(msg)),
            ),
            HandshakeRole::Responder => if msg is Handshake {
                (
                    HandshakeState::Answering(spec_check_handshake(msg)),
                    HandshakeAction::Send(spec_handshake_message(h.self_name)),
                )
            } else {
                (HandshakeState::Done, HandshakeAction::Finish(Err(TxError::HandshakeFailure)))
            },
        },
        (HandshakeState::Answering(result), HandshakeEvent::Sent) => (
            HandshakeState::Done,
            HandshakeAction::Finish(result),
        ),
        (state, _) => (state, HandshakeAction::Receive),
    }
}

impl Handshake {
    /// The handshake of the side that connected, named `self_name`.
    pub fn initiator(self_name: String) -> (h: Self)
        ensures
            h == (Handshake {
                role: HandshakeRole::Initiator,
                self_name,
                state: HandshakeState::Start,
            }),
    {
        Handshake { role: HandshakeRole::Initiator, self_name, state: HandshakeState::Start }
    }

    /// The handshake of the side that accepted, named `self_name`.
    pub fn responder(self_name: String) -> (h: Self)
        ensures
            h == (Handshake {
                role: HandshakeRole::Responder,
                self_name,
                state: HandshakeState::Start,
            }),
    {
        Handshake { role: HandshakeRole::Responder, self_name, state: HandshakeState::Start }
    }

    /// Whether the handshake waits for `ev`.
    pub fn expects(&self, ev: &HandshakeEvent) -> (b: bool)
        ensures
            b == spec_expects(self.state, *ev),
    {
        match (&self.state, ev) {
            (HandshakeState::Start, HandshakeEvent::Start) => true,
            (HandshakeState::Sending, HandshakeEvent::Sent) => true,
            (HandshakeState::Receiving, HandshakeEvent::Received(_)) => true,
            (HandshakeState::Answering(_), HandshakeEvent::Sent) => true,
            _ => false,
        }
    }

    /// Takes what happened and says what to do next. The initiator sends its
    /// handshake, then checks the answer; the responder waits for a
    /// handshake, answers it with its own, and then ends with what the
    /// received one gave; if the first message is not a handshake it fails
    /// without answering.
    pub fn step(&mut self, ev: HandshakeEvent) -> (a: HandshakeAction)
        requires
            spec_expects(old(self).state, ev),
        ensures
            final(self).role == old(self).role,
            final(self).self_name == old(self).self_name,
            (final(self).state, a) == spec_handshake_step(*old(self), ev),
    {
        let mut state = HandshakeState::Done;
        std::mem::swap(&mut state, &mut self.state);
        match (state, ev) {
            (HandshakeState::Start, HandshakeEvent::Start) => match self.role {
                HandshakeRole::Initiator => {
                    self.state = HandshakeState::Sending;
                    HandshakeAction::Send(handshake_message(self.self_name.clone()))
                },
                HandshakeRole::Responder => {
                    self.state = HandshakeState::Receiving;
                    HandshakeAction::Receive
                },
            },
            (HandshakeState::Sending, HandshakeEvent::Sent) => {
                self.state = HandshakeState::Receiving;
                HandshakeAction::Receive
            },
            (HandshakeState::Receiving, HandshakeEvent::Received(msg)) => match self.role {
                HandshakeRole::Initiator => {
                    self.state = HandshakeState::Done;
                    HandshakeAction::Finish(check_handshake(msg))
                },
                HandshakeRole::Responder => {
                    if let Message::Handshake { .. } = msg {
                        self.state = HandshakeState::Answering(check_handshake(msg));
                        HandshakeAction::Send(handshake_message(self.self_name.clone()))
                    } else {
                        self.state = HandshakeState::Done;
                        HandshakeAction::Finish(Err(TxError::HandshakeFailure))
                    }
                },
            },
            (HandshakeState::Answering(result), HandshakeEvent::Sent) => {
                self.state = HandshakeState::Done;
                HandshakeAction::Finish(result)
            },
            (state, _) => {
                self.state = state;
                HandshakeAction::Receive
            },
        }
    }
}

// ---------------------------------------------------------------------------
// Receiving notifications
// ---------------------------------------------------------------------------

/// What the receiver does with a message that arrived on an open connection.
#[derive(Debug)]
pub enum NotificationStep {
    /// Hand the notification to the user.
    Deliver(Notification),
    /// Wait for the next message.
    Skip,
    /// Give up on the connection with this error.
    Reject(RecvError),
}

/// What a message on an open connection gives.
pub open spec fn spec_notification_step(msg: Message) -> NotificationStep {
    match msg {
        Message::Notification(n) => NotificationStep::Deliver(n),
        Message::Heartbeat => NotificationStep::Skip,
        Message::Handshake { .. } => NotificationStep::Reject(RecvError::GarbageData),
    }
}

/// Notifications are delivered, heartbeats skipped, and a second handshake
/// is refused as garbage.
pub fn notification_step(msg: Message) -> (s: NotificationStep)
    ensures
        s == spec_notification_step(msg),
{
    match msg {
        Message::Notification(n) => NotificationStep::Deliver(n),
        Message::Heartbeat => NotificationStep::Skip,
        Message::Handshake { .. } => NotificationStep::Reject(RecvError::GarbageData),
    }
}

impl Notification {
    /// The text that the receiver shows as an attention request: that of a
    /// flash; a popup is only logged.
    pub fn flash_text(&self) -> (t: Option<String>)
        ensures
            match self {
                Notification::Flash { msg } => t == Some(*msg),
                Notification::Popup { .. } => t is None,
            },
    {
        match self {
            Notification::Flash { msg } => Some(msg.clone()),
            Notification::Popup { .. } => None,
        }
    }
}

// ---------------------------------------------------------------------------
// Sending notifications
// ---------------------------------------------------------------------------

/// What woke the sender up.
#[derive(Debug)]
pub enum SenderEvent {
    /// A notification is waiting to be sent.
    Notification(Notification),
    /// No more notifications will come.
    Closed,
    /// Nothing was sent for the heartbeat interval.
    Timeout,
}

/// What the sender does next.
#[derive(Debug)]
pub enum SenderAction {
    /// Send this message and wait again.
    Send(Message),
    /// Close the connection and stop.
    Disconnect,
}

/// A notification is sent as it is, a quiet interval gives a heartbeat, and
/// the end of the notifications closes the connection.
pub fn sender_action(ev: SenderEvent) -> (a: SenderAction)
    ensures
        match ev {
            SenderEvent::Notification(n) => a == SenderAction::Send(Message::Notification(n)),
            SenderEvent::Timeout => a == SenderAction::Send(Message::Heartbeat),
            SenderEvent::Closed => a == SenderAction::Disconnect,
        },
{
    match ev {
        SenderEvent::Notification(n) => SenderAction::Send(notification_message(n)),
        SenderEvent::Timeout => SenderAction::Send(heartbeat_message()),
        SenderEvent::Closed => SenderAction::Disconnect,
    }
}

/// The number of connection attempts the sender makes.
pub const MAX_ATTEMPTS: u32 = 3;

/// The sender's attempts to deliver its notifications: it connects again
/// after a failure, at most `MAX_ATTEMPTS` times, and stops at the first
/// attempt that ends well.
#[derive(Debug, Clone, Copy, PartialEq, Eq, Structural)]
pub struct Attempts {
    pub made: u32,
    pub succeeded: bool,
}

impl Attempts {
    /// No attempt made yet.
    pub fn new() -> (a: Self)
        ensures
            a == (Attempts { made: 0, succeeded: false }),
    {
        Attempts { made: 0, succeeded: false }
    }

    pub open spec fn spec_should_try(self) -> bool {
        !self.succeeded && self.made < MAX_ATTEMPTS
    }

    pub open spec fn spec_exit_code(self) -> i32 {
        if self.succeeded || self.made == 0 {
            0i32
        } else {
            1i32
        }
    }

    /// Whether to make another attempt.
    pub fn should_try(&self) -> (b: bool)
        ensures
            b == self.spec_should_try(),
    {
        !self.succeeded && self.made < MAX_ATTEMPTS
    }

    /// Records how an attempt ended.
    pub fn record(&mut self, ok: bool)
        requires
            !old(self).succeeded,
            old(self).made < MAX_ATTEMPTS,
        ensures
            final(self).made == old(self).made + 1,
            final(self).succeeded == ok,
    {
        self.made = self.made + 1;
        self.succeeded = ok;
    }

    /// The process exit code: 0 once an attempt ended well, 1 after failures.
    pub fn exit_code(&self) -> (c: i32)
        ensures
            c == self.spec_exit_code(),
    {
        if self.succeeded || self.made == 0 {
            0
        } else {
            1
        }
    }
}

// ---------------------------------------------------------------------------
// Shell events of the sender's desktop
// ---------------------------------------------------------------------------

/// A shell event the sender hears about.
#[derive(Debug, Clone, Copy, PartialEq, Eq, Structural)]
pub enum ShellEvent {
    /// A top-level window was created.
    WindowCreated,
    /// A window flashes to ask for attention.
    Flash,
    /// Anything else.
    Other,
}

/// The text that describes a window: its title, a space, and its class in
/// braces.
pub open spec fn spec_window_text(title: Seq<char>, class: Seq<char>) -> Seq<char> {
    title + " {"@ + class + "}"@
}

/// The notification that a shell event about the window with this title and
/// class gives: a popup for a new window, a flash for a flashing one.
pub fn shell_notification(event: ShellEvent, title: &str, class: &str) -> (n: Option<Notification>)
    ensures
        match event {
            ShellEvent::WindowCreated => n matches Some(Notification::Popup { msg }) && msg@
                == spec_window_text(title@, class@),
            ShellEvent::Flash => n matches Some(Notification::Flash { msg }) && msg@
                == spec_window_text(title@, class@),
            ShellEvent::Other => n is None,
        },
{
    match event {
        ShellEvent::WindowCreated => Some(Notification::Popup { msg: window_text(title, class) }),
        ShellEvent::Flash => Some(Notification::Flash { msg: window_text(title, class) }),
        ShellEvent::Other => None,
    }
}

/// The text that describes a window.
pub fn window_text(title: &str, class: &str) -> (s: String)
    ensures
        s@ == spec_window_text(title@, class@),
{
    let mut s = String::from_str(title);
    s.append(" {");
    s.append(class);
    s.append("}");
    s
}

// ---------------------------------------------------------------------------
// Laws
// ---------------------------------------------------------------------------

/// Two peers of this protocol version complete the handshake and learn each
/// other's names: the initiator sends its handshake; the responder receives
/// it and answers with its own; the initiator receives the answer and ends
/// with the responder's name; once its answer is sent, the responder ends
/// with the initiator's name.
pub proof fn lemma_handshake_completes(initiator_name: String, responder_name: String)
    ensures
        ({
            let m1 = spec_handshake_message(initiator_name);
            let m2 = spec_handshake_message(responder_name);
            let (i1, a1) = spec_handshake_step(
                Handshake {
                    role: HandshakeRole::Initiator,
                    self_name: initiator_name,
                    state: HandshakeState::Start,
                },
                HandshakeEvent::Start,
            );
            let (r1, b1) = spec_handshake_step(
                Handshake {
                    role: HandshakeRole::Responder,
                    self_name: responder_name,
                    state: HandshakeState::Start,
                },
                HandshakeEvent::Start,
            );
            let (r2, b2) = spec_handshake_step(
                Handshake { role: HandshakeRole::Responder, self_name: responder_name, state: r1 },
                HandshakeEvent::Received(m1),
            );
            let (i2, a2) = spec_handshake_step(
                Handshake { role: HandshakeRole::Initiator, self_name: initiator_name, state: i1 },
                HandshakeEvent::Sent,
            );
            let (i3, a3) = spec_handshake_step(
                Handshake { role: HandshakeRole::Initiator, self_name: initiator_name, state: i2 },
                HandshakeEvent::Received(m2),
            );
            let (r3, b3) = spec_handshake_step(
                Handshake { role: HandshakeRole::Responder, self_name: responder_name, state: r2 },
                HandshakeEvent::Sent,
            );
            &&& a1 == HandshakeAction::Send(m1)
            &&& b1 == HandshakeAction::Receive
            &&& b2 == HandshakeAction::Send(m2)
            &&& a2 == HandshakeAction::Receive
            &&& a3 == HandshakeAction::Finish(Ok::<String, TxError>(responder_name))
            &&& b3 == HandshakeAction::Finish(Ok::<String, TxError>(initiator_name))
            &&& i3 == HandshakeState::Done
            &&& r3 == HandshakeState::Done
        }),
{
}

/// A peer that answers with a newer protocol version is refused, and the
/// refusal names that version.
pub proof fn lemma_newer_protocol_refused(version: u8, peer_name: String)
    requires
        version > PROTOCOL_VERSION,
    ensures
        spec_check_handshake(Message::Handshake { protocol_version: version, peer_name })
            == Err::<String, TxError>(TxError::IncompatibleProtocol { version }),
{
}

/// The attempts the sender makes, given how each would end: it stops after the
/// first success or when the attempts are used up.
pub open spec fn spec_run_attempts(a: Attempts, outcomes: Seq<bool>) -> Attempts
    decreases outcomes.len(),
{
    if a.spec_should_try() && outcomes.len() > 0 {
        spec_run_attempts(
            Attempts { made: (a.made + 1) as u32, succeeded: outcomes[0] },
            outcomes.drop_first(),
        )
    } else {
        a
    }
}

/// The sender makes at most `MAX_ATTEMPTS` attempts, and exits with 0 exactly
/// when one of them ended well.
pub proof fn lemma_attempts_exit_code(outcomes: Seq<bool>)
    requires
        outcomes.len() >= MAX_ATTEMPTS,
    ensures
        spec_run_attempts(Attempts { made: 0, succeeded: false }, outcomes).made <= MAX_ATTEMPTS,
        (spec_run_attempts(Attempts { made: 0, succeeded: false }, outcomes).spec_exit_code()
            == 0) <==> (outcomes[0] || outcomes[1] || outcomes[2]),
{
    let s1 = outcomes.drop_first();
    let s2 = s1.drop_first();
    let s3 = s2.drop_first();
    assert(s1[0] == outcomes[1]);
    assert(s2[0] == outcomes[2]);
    let a0 = Attempts { made: 0, succeeded: false };
    let a1 = Attempts { made: 1, succeeded: outcomes[0] };
    let a2 = Attempts { made: 2, succeeded: outcomes[1] };
    let a3 = Attempts { made: 3, succeeded: outcomes[2] };
    assert(spec_run_attempts(a3, s3) == a3);
    assert(spec_run_attempts(a2, s2) == if outcomes[1] { a2 } else { a3 });
    assert(spec_run_attempts(a1, s1) == if outcomes[0] { a1 } else if outcomes[1] { a2 } else { a3 });
    assert(spec_run_attempts(a0, outcomes) == spec_run_attempts(a1, s1));
}

/// What receiving a notification gives from the messages that arrive in
/// turn: the first message that is not a heartbeat decides.
pub open spec fn spec_receive_notification(msgs: Seq<Message>) -> Option<NotificationStep>
    decreases msgs.len(),
{
    if msgs.len() == 0 {
        None
    } else {
        match spec_notification_step(msgs[0]) {
            NotificationStep::Skip => spec_receive_notification(msgs.drop_first()),
            step => Some(step),
        }
    }
}

/// Heartbeats before a notification are skipped: after any number of them,
/// the notification is delivered.
pub proof fn lemma_heartbeats_skipped(heartbeats: nat, n: Notification)
    ensures
        spec_receive_notification(
            Seq::new(heartbeats, |i: int| Message::Heartbeat).push(Message::Notification(n)),
        ) == Some(NotificationStep::Deliver(n)),
    decreases heartbeats,
{
    let msgs = Seq::new(heartbeats, |i: int| Message::Heartbeat).push(Message::Notification(n));
    if heartbeats > 0 {
        let rest = Seq::new((heartbeats - 1) as nat, |i: int| Message::Heartbeat).push(
            Message::Notification(n),
        );
        assert(msgs.drop_first() =~= rest);
        assert(msgs[0] == Message::Heartbeat);
        lemma_heartbeats_skipped((heartbeats - 1) as nat, n);
    } else {
        assert(msgs[0] == Message::Notification(n));
    }
}

/// The text that describes a window holds the whole title, a space and an
/// opening brace, the whole class, and a closing brace, in that order and
/// nothing else, whatever their lengths.
pub proof fn lemma_window_text_whole(title: Seq<char>, class: Seq<char>)
    ensures
        spec_window_text(title, class).len() == title.len() + class.len() + 3,
        spec_window_text(title, class).subrange(0, title.len() as int) == title,
        spec_window_text(title, class)[title.len() as int] == ' ',
        spec_window_text(title, class)[title.len() + 1int] == '{',
        spec_window_text(title, class).subrange(
            title.len() + 2int,
            title.len() + 2int + class.len(),
        ) == class,
        spec_window_text(title, class)[title.len() + class.len() + 2int] == '}',
{
    reveal_strlit(" {");
    reveal_strlit("}");
    let t = spec_window_text(title, class);
    assert(t.subrange(0, title.len() as int) =~= title);
    assert(t.subrange(title.len() + 2int, title.len() + 2int + class.len()) =~= class);
}

} // verus!
