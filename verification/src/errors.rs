use vstd::prelude::*;
use vstd::string::*;
use vstd::std_specs::convert::FromSpec;

verus! {

// ---------------------------------------------------------------------------
// Text helpers
// ---------------------------------------------------------------------------

/// The character of a decimal digit.
pub open spec fn digit_char(d: nat) -> char {
    (48 + d) as char
}

/// The decimal representation of `n`, without leading zeros.
pub open spec fn decimal(n: nat) -> Seq<char>
    decreases n,
{
    if n < 10 {
        seq![digit_char(n)]
    } else {
        decimal(n / 10) + seq![digit_char(n % 10)]
    }
}

fn digit_str(d: u8) -> (s: &'static str)
    requires
        d < 10,
    ensures
        s@ == seq![digit_char(d as nat)],
{
    match d {
        0 => {
            proof {
                reveal_strlit("0");
            }
            "0"
        },
        1 => {
            proof {
                reveal_strlit("1");
            }
            "1"
        },
        2 => {
            proof {
                reveal_strlit("2");
            }
            "2"
        },
        3 => {
            proof {
                reveal_strlit("3");
            }
            "3"
        },
        4 => {
            proof {
                reveal_strlit("4");
            }
            "4"
        },
        5 => {
            proof {
                reveal_strlit("5");
            }
            "5"
        },
        6 => {
            proof {
                reveal_strlit("6");
            }
            "6"
        },
        7 => {
            proof {
                reveal_strlit("7");
            }
            "7"
        },
        8 => {
            proof {
                reveal_strlit("8");
            }
            "8"
        },
        _ => {
            proof {
                reveal_strlit("9");
            }
            "9"
        },
    }
}

/// Appends the decimal representation of `n` to `s`.
fn push_decimal(s: &mut String, n: u8)
    ensures
        final(s)@ == old(s)@ + decimal(n as nat),
    decreases n,
{
    if n >= 10 {
        push_decimal(s, n / 10);
    }
    s.append(digit_str(n % 10));
    proof {
        if n >= 10 {
            assert(decimal(n as nat) == decimal((n / 10) as nat) + seq![digit_char((n % 10) as nat)]);
        }
    }
}

/// The separator that `cause_trace` puts between an error and its cause.
pub open spec fn caused_by() -> Seq<char> {
    ", caused by\n"@
}

/// The messages of an error chain, each followed by the separator but the last.
pub open spec fn join_trace(chain: Seq<Seq<char>>) -> Seq<char>
    decreases chain.len(),
{
    if chain.len() == 0 {
        Seq::empty()
    } else if chain.len() == 1 {
        chain[0]
    } else {
        chain[0] + caused_by() + join_trace(chain.drop_first())
    }
}

proof fn lemma_join_trace_cons(head: Seq<char>, rest: Seq<Seq<char>>)
    requires
        rest.len() >= 1,
    ensures
        join_trace(seq![head] + rest) == head + caused_by() + join_trace(rest),
{
    assert((seq![head] + rest).drop_first() =~= rest);
}

// ---------------------------------------------------------------------------
// Error chains
// ---------------------------------------------------------------------------

/// Errors that can report the chain of their causes.
pub trait FailExt {
    /// The messages of this error and of each of its causes, outermost first.
    spec fn cause_chain(&self) -> Seq<Seq<char>>;

    /// Every error has at least its own message.
    proof fn lemma_cause_chain_nonempty(&self)
        ensures
            self.cause_chain().len() >= 1,
    ;

    /// This error and its causes, one message per cause, joined by
    /// ", caused by\n".
    fn cause_trace(&self) -> (trace: String)
        ensures
            trace@ == join_trace(self.cause_chain()),
    ;
}

/// What an I/O operation reported when it failed: its message.
#[derive(Debug)]
pub struct IoError {
    pub message: String,
}

/// What the payload codec reported when it failed: its message.
#[derive(Debug)]
pub struct CodecError {
    pub message: String,
}

impl FailExt for IoError {
    open spec fn cause_chain(&self) -> Seq<Seq<char>> {
        seq![self.message@]
    }

    proof fn lemma_cause_chain_nonempty(&self) {
    }

    fn cause_trace(&self) -> (trace: String) {
        self.message.clone()
    }
}

impl FailExt for CodecError {
    open spec fn cause_chain(&self) -> Seq<Seq<char>> {
        seq![self.message@]
    }

    proof fn lemma_cause_chain_nonempty(&self) {
    }

    fn cause_trace(&self) -> (trace: String) {
        self.message.clone()
    }
}

/// An error with a description of what was being done when it happened.
#[derive(Debug)]
pub struct ErrWithContext<E> {
    pub inner: E,
    pub context: String,
}

impl ErrWithContext<IoError> {
    /// The message: the context, a colon, and the inner error's message.
    pub open spec fn spec_message(&self) -> Seq<char> {
        self.context@ + ": "@ + self.inner.message@
    }

    /// The message of this error.
    pub fn to_string(&self) -> (s: String)
        ensures
            s@ == self.spec_message(),
    {
        let mut s = self.context.clone();
        s.append(": ");
        s.append(self.inner.message.as_str());
        s
    }
}

impl FailExt for ErrWithContext<IoError> {
    /// The context does not name a cause: the chain ends here.
    open spec fn cause_chain(&self) -> Seq<Seq<char>> {
        seq![self.spec_message()]
    }

    proof fn lemma_cause_chain_nonempty(&self) {
    }

    fn cause_trace(&self) -> (trace: String) {
        self.to_string()
    }
}

/// Attaching a context to the error of a failed operation.
pub trait ResultExt<T, E>: Sized {
    /// The result with its error, if any, wrapped in the context.
    spec fn spec_with_context(self, context: String) -> Result<T, ErrWithContext<E>>;

    fn with_context(self, context: String) -> (r: Result<T, ErrWithContext<E>>)
        ensures
            r == self.spec_with_context(context),
    ;
}

impl<T> ResultExt<T, IoError> for Result<T, IoError> {
    open spec fn spec_with_context(self, context: String) -> Result<T, ErrWithContext<IoError>> {
        match self {
            Ok(v) => Ok(v),
            Err(e) => Err(ErrWithContext { inner: e, context }),
        }
    }

    fn with_context(self, context: String) -> (r: Result<T, ErrWithContext<IoError>>) {
        match self {
            Ok(v) => Ok(v),
            Err(e) => Err(ErrWithContext { inner: e, context }),
        }
    }
}

/// What failed underneath a generic receive or send error.
#[derive(Debug)]
pub enum Cause {
    Io(ErrWithContext<IoError>),
    Codec(CodecError),
}

impl FailExt for Cause {
    open spec fn cause_chain(&self) -> Seq<Seq<char>> {
        match self {
            Cause::Io(e) => e.cause_chain(),
            Cause::Codec(e) => e.cause_chain(),
        }
    }

    proof fn lemma_cause_chain_nonempty(&self) {
    }

    fn cause_trace(&self) -> (trace: String) {
        match self {
            Cause::Io(e) => e.cause_trace(),
            Cause::Codec(e) => e.cause_trace(),
        }
    }
}


// ---------------------------------------------------------------------------
// Receive errors
// ---------------------------------------------------------------------------

/// The kind of a receive error.
#[derive(Debug, Clone, Copy, PartialEq, Eq, Structural)]
pub enum RecvErrorKind {
    PayloadTooLarge,
    PayloadDeserializationFailure,
    GarbageData,
    Io,
}

/// Why a message could not be received.
#[derive(Debug)]
pub enum RecvError {
    /// The announced payload does not fit the receive buffer.
    PayloadTooLarge,
    /// The payload could not be decoded.
    PayloadDeserializationFailure(CodecError),
    /// The bytes received are not a message of this protocol.
    GarbageData,
    /// A failure underneath, of the given kind.
    Generic(Cause, RecvErrorKind),
}

impl RecvError {
    pub open spec fn spec_kind(&self) -> RecvErrorKind {
        match self {
            RecvError::PayloadTooLarge => RecvErrorKind::PayloadTooLarge,
            RecvError::PayloadDeserializationFailure(_) => RecvErrorKind::PayloadDeserializationFailure,
            RecvError::GarbageData => RecvErrorKind::GarbageData,
            RecvError::Generic(_, kind) => *kind,
        }
    }

    /// The kind of this error.
    pub fn kind(&self) -> (k: RecvErrorKind)
        ensures
            k == self.spec_kind(),
    {
        match self {
            RecvError::PayloadTooLarge => RecvErrorKind::PayloadTooLarge,
            RecvError::PayloadDeserializationFailure(_) => RecvErrorKind::PayloadDeserializationFailure,
            RecvError::GarbageData => RecvErrorKind::GarbageData,
            RecvError::Generic(_, kind) => *kind,
        }
    }

    pub open spec fn spec_message(&self) -> Seq<char> {
        match self {
            RecvError::PayloadTooLarge => "Payload too large"@,
            RecvError::PayloadDeserializationFailure(_) => "Payload deserialization failure"@,
            RecvError::GarbageData => "Garbage data"@,
            RecvError::Generic(_, _) => "Receive error"@,
        }
    }

    /// The message of this error, without its causes.
    pub fn to_string(&self) -> (s: String)
        ensures
            s@ == self.spec_message(),
    {
        match self {
            RecvError::PayloadTooLarge => String::from_str("Payload too large"),
            RecvError::PayloadDeserializationFailure(_) => String::from_str("Payload deserialization failure"),
            RecvError::GarbageData => String::from_str("Garbage data"),
            RecvError::Generic(_, _) => String::from_str("Receive error"),
        }
    }
}

impl FailExt for RecvError {
    open spec fn cause_chain(&self) -> Seq<Seq<char>> {
        match self {
            RecvError::PayloadDeserializationFailure(c) => seq![self.spec_message()] + c.cause_chain(),
            RecvError::Generic(c, _) => seq![self.spec_message()] + c.cause_chain(),
            _ => seq![self.spec_message()],
        }
    }

    proof fn lemma_cause_chain_nonempty(&self) {
    }

    fn cause_trace(&self) -> (trace: String) {
        let mut s = self.to_string();
        match self {
            RecvError::PayloadDeserializationFailure(c) => {
                let rest = c.cause_trace();
                s.append(", caused by\n");
                s.append(rest.as_str());
                proof {
                    c.lemma_cause_chain_nonempty();
                    lemma_join_trace_cons(self.spec_message(), c.cause_chain());
                }
            },
            RecvError::Generic(c, _) => {
                let rest = c.cause_trace();
                s.append(", caused by\n");
                s.append(rest.as_str());
                proof {
                    c.lemma_cause_chain_nonempty();
                    lemma_join_trace_cons(self.spec_message(), c.cause_chain());
                }
            },
            _ => {},
        }
        s
    }
}

impl From<CodecError> for RecvError {
    fn from(e: CodecError) -> (r: RecvError) {
        RecvError::Generic(Cause::Codec(e), RecvErrorKind::PayloadDeserializationFailure)
    }
}

impl vstd::std_specs::convert::FromSpecImpl<CodecError> for RecvError {
    open spec fn obeys_from_spec() -> bool {
        true
    }

    open spec fn from_spec(e: CodecError) -> RecvError {
        RecvError::Generic(Cause::Codec(e), RecvErrorKind::PayloadDeserializationFailure)
    }
}

impl From<ErrWithContext<IoError>> for RecvError {
    fn from(e: ErrWithContext<IoError>) -> (r: RecvError) {
        RecvError::Generic(Cause::Io(e), RecvErrorKind::Io)
    }
}

impl vstd::std_specs::convert::FromSpecImpl<ErrWithContext<IoError>> for RecvError {
    open spec fn obeys_from_spec() -> bool {
        true
    }

    open spec fn from_spec(e: ErrWithContext<IoError>) -> RecvError {
        RecvError::Generic(Cause::Io(e), RecvErrorKind::Io)
    }
}

// ---------------------------------------------------------------------------
// Send errors
// ---------------------------------------------------------------------------

/// The kind of a send error.
#[derive(Debug, Clone, Copy, PartialEq, Eq, Structural)]
pub enum SendErrorKind {
    PayloadSerializationFailure,
    Io,
}

/// Why a message could not be sent.
#[derive(Debug)]
pub enum SendError {
    /// The payload could not be encoded.
    PayloadSerializationFailure { cause: CodecError },
    /// A failure underneath, of the given kind.
    Generic(Cause, SendErrorKind),
}

impl SendError {
    pub open spec fn spec_kind(&self) -> SendErrorKind {
        match self {
            SendError::PayloadSerializationFailure { .. } => SendErrorKind::PayloadSerializationFailure,
            SendError::Generic(_, kind) => *kind,
        }
    }

    /// The kind of this error.
    pub fn kind(&self) -> (k: SendErrorKind)
        ensures
            k == self.spec_kind(),
    {
        match self {
            SendError::PayloadSerializationFailure { .. } => SendErrorKind::PayloadSerializationFailure,
            SendError::Generic(_, kind) => *kind,
        }
    }

    pub open spec fn spec_message(&self) -> Seq<char> {
        match self {
            SendError::PayloadSerializationFailure { .. } => "Payload serialization failure"@,
            SendError::Generic(_, _) => "Send error"@,
        }
    }

    /// The message of this error, without its causes.
    pub fn to_string(&self) -> (s: String)
        ensures
            s@ == self.spec_message(),
    {
        match self {
            SendError::PayloadSerializationFailure { .. } => String::from_str("Payload serialization failure"),
            SendError::Generic(_, _) => String::from_str("Send error"),
        }
    }
}

impl FailExt for SendError {
    open spec fn cause_chain(&self) -> Seq<Seq<char>> {
        match self {
            SendError::PayloadSerializationFailure { cause } => seq![self.spec_message()] + cause.cause_chain(),
            SendError::Generic(c, _) => seq![self.spec_message()] + c.cause_chain(),
        }
    }

    proof fn lemma_cause_chain_nonempty(&self) {
    }

    fn cause_trace(&self) -> (trace: String) {
        let mut s = self.to_string();
        match self {
            SendError::PayloadSerializationFailure { cause } => {
                let rest = cause.cause_trace();
                s.append(", caused by\n");
                s.append(rest.as_str());
                proof {
                    cause.lemma_cause_chain_nonempty();
                    lemma_join_trace_cons(self.spec_message(), cause.cause_chain());
                }
            },
            SendError::Generic(c, _) => {
                let rest = c.cause_trace();
                s.append(", caused by\n");
                s.append(rest.as_str());
                proof {
                    c.lemma_cause_chain_nonempty();
                    lemma_join_trace_cons(self.spec_message(), c.cause_chain());
                }
            },
        }
        s
    }
}

impl From<CodecError> for SendError {
    fn from(e: CodecError) -> (r: SendError) {
        SendError::Generic(Cause::Codec(e), SendErrorKind::PayloadSerializationFailure)
    }
}

impl vstd::std_specs::convert::FromSpecImpl<CodecError> for SendError {
    open spec fn obeys_from_spec() -> bool {
        true
    }

    open spec fn from_spec(e: CodecError) -> SendError {
        SendError::Generic(Cause::Codec(e), SendErrorKind::PayloadSerializationFailure)
    }
}

impl From<ErrWithContext<IoError>> for SendError {
    fn from(e: ErrWithContext<IoError>) -> (r: SendError) {
        SendError::Generic(Cause::Io(e), SendErrorKind::Io)
    }
}

impl vstd::std_specs::convert::FromSpecImpl<ErrWithContext<IoError>> for SendError {
    open spec fn obeys_from_spec() -> bool {
        true
    }

    open spec fn from_spec(e: ErrWithContext<IoError>) -> SendError {
        SendError::Generic(Cause::Io(e), SendErrorKind::Io)
    }
}

// ---------------------------------------------------------------------------
// Transmission errors
// ---------------------------------------------------------------------------

/// The kind of a transmission error.
#[derive(Debug, Clone, Copy, PartialEq, Eq, Structural)]
pub enum TxErrorKind {
    HandshakeFailure,
    IncompatibleProtocol,
    Send,
    Recv,
    Io,
}

/// What failed underneath a generic transmission error.
#[derive(Debug)]
pub enum TxCause {
    Recv(RecvError),
    Send(SendError),
    Io(ErrWithContext<IoError>),
}

impl FailExt for TxCause {
    open spec fn cause_chain(&self) -> Seq<Seq<char>> {
        match self {
            TxCause::Recv(e) => e.cause_chain(),
            TxCause::Send(e) => e.cause_chain(),
            TxCause::Io(e) => e.cause_chain(),
        }
    }

    proof fn lemma_cause_chain_nonempty(&self) {
        match self {
            TxCause::Recv(e) => e.lemma_cause_chain_nonempty(),
            TxCause::Send(e) => e.lemma_cause_chain_nonempty(),
            TxCause::Io(e) => e.lemma_cause_chain_nonempty(),
        }
    }

    fn cause_trace(&self) -> (trace: String) {
        match self {
            TxCause::Recv(e) => e.cause_trace(),
            TxCause::Send(e) => e.cause_trace(),
            TxCause::Io(e) => e.cause_trace(),
        }
    }
}

/// Why a connection could not be set up or used.
#[derive(Debug)]
pub enum TxError {
    /// The peer did not answer with a handshake.
    HandshakeFailure,
    /// The peer speaks a newer protocol version than this one.
    IncompatibleProtocol { version: u8 },
    /// A failure underneath, of the given kind.
    Generic(TxCause, TxErrorKind),
}

impl TxError {
    pub open spec fn spec_kind(&self) -> TxErrorKind {
        match self {
            TxError::HandshakeFailure => TxErrorKind::HandshakeFailure,
            TxError::IncompatibleProtocol { .. } => TxErrorKind::IncompatibleProtocol,
            TxError::Generic(_, kind) => *kind,
        }
    }

    /// The kind of this error.
    pub fn kind(&self) -> (k: TxErrorKind)
        ensures
            k == self.spec_kind(),
    {
        match self {
            TxError::HandshakeFailure => TxErrorKind::HandshakeFailure,
            TxError::IncompatibleProtocol { .. } => TxErrorKind::IncompatibleProtocol,
            TxError::Generic(_, kind) => *kind,
        }
    }

    pub open spec fn spec_message(&self) -> Seq<char> {
        match self {
            TxError::HandshakeFailure => "Handshake failure"@,
            TxError::IncompatibleProtocol { version } => "Incompatible protocol version "@ + decimal(
                *version as nat,
            ),
            TxError::Generic(_, _) => "Transmission error"@,
        }
    }

    /// The message of this error, without its causes.
    pub fn to_string(&self) -> (s: String)
        ensures
            s@ == self.spec_message(),
    {
        match self {
            TxError::HandshakeFailure => String::from_str("Handshake failure"),
            TxError::IncompatibleProtocol { version } => {
                let mut s = String::from_str("Incompatible protocol version ");
                push_decimal(&mut s, *version);
                s
            },
            TxError::Generic(_, _) => String::from_str("Transmission error"),
        }
    }
}

impl FailExt for TxError {
    open spec fn cause_chain(&self) -> Seq<Seq<char>> {
        match self {
            TxError::Generic(c, _) => seq![self.spec_message()] + c.cause_chain(),
            _ => seq![self.spec_message()],
        }
    }

    proof fn lemma_cause_chain_nonempty(&self) {
    }

    fn cause_trace(&self) -> (trace: String) {
        let mut s = self.to_string();
        match self {
            TxError::Generic(c, _) => {
                let rest = c.cause_trace();
                s.append(", caused by\n");
                s.append(rest.as_str());
                proof {
                    c.lemma_cause_chain_nonempty();
                    lemma_join_trace_cons(self.spec_message(), c.cause_chain());
                }
            },
            _ => {},
        }
        s
    }
}

impl From<RecvError> for TxError {
    fn from(e: RecvError) -> (r: TxError) {
        TxError::Generic(TxCause::Recv(e), TxErrorKind::Recv)
    }
}

impl vstd::std_specs::convert::FromSpecImpl<RecvError> for TxError {
    open spec fn obeys_from_spec() -> bool {
        true
    }

    open spec fn from_spec(e: RecvError) -> TxError {
        TxError::Generic(TxCause::Recv(e), TxErrorKind::Recv)
    }
}

impl From<SendError> for TxError {
    fn from(e: SendError) -> (r: TxError) {
        TxError::Generic(TxCause::Send(e), TxErrorKind::Send)
    }
}

impl vstd::std_specs::convert::FromSpecImpl<SendError> for TxError {
    open spec fn obeys_from_spec() -> bool {
        true
    }

    open spec fn from_spec(e: SendError) -> TxError {
        TxError::Generic(TxCause::Send(e), TxErrorKind::Send)
    }
}

impl From<ErrWithContext<IoError>> for TxError {
    fn from(e: ErrWithContext<IoError>) -> (r: TxError) {
        TxError::Generic(TxCause::Io(e), TxErrorKind::Io)
    }
}

impl vstd::std_specs::convert::FromSpecImpl<ErrWithContext<IoError>> for TxError {
    open spec fn obeys_from_spec() -> bool {
        true
    }

    open spec fn from_spec(e: ErrWithContext<IoError>) -> TxError {
        TxError::Generic(TxCause::Io(e), TxErrorKind::Io)
    }
}

// ---------------------------------------------------------------------------
// Laws
// ---------------------------------------------------------------------------

/// Turning a receive error into a transmission error tags it with the kind
/// `Recv` and puts "Transmission error" in front of its chain of causes.
pub proof fn lemma_tx_from_recv(e: RecvError)
    ensures
        <TxError as FromSpec<RecvError>>::from_spec(e).spec_kind() == TxErrorKind::Recv,
        <TxError as FromSpec<RecvError>>::from_spec(e).cause_chain() == seq![
            "Transmission error"@,
        ] + e.cause_chain(),
        join_trace(<TxError as FromSpec<RecvError>>::from_spec(e).cause_chain())
            == "Transmission error"@ + caused_by() + join_trace(e.cause_chain()),
{
    e.lemma_cause_chain_nonempty();
    lemma_join_trace_cons("Transmission error"@, e.cause_chain());
}

/// Turning a send error into a transmission error tags it with the kind
/// `Send` and puts "Transmission error" in front of its chain of causes.
pub proof fn lemma_tx_from_send(e: SendError)
    ensures
        <TxError as FromSpec<SendError>>::from_spec(e).spec_kind() == TxErrorKind::Send,
        <TxError as FromSpec<SendError>>::from_spec(e).cause_chain() == seq![
            "Transmission error"@,
        ] + e.cause_chain(),
        join_trace(<TxError as FromSpec<SendError>>::from_spec(e).cause_chain())
            == "Transmission error"@ + caused_by() + join_trace(e.cause_chain()),
{
    e.lemma_cause_chain_nonempty();
    lemma_join_trace_cons("Transmission error"@, e.cause_chain());
}

/// An I/O failure with its context becomes a transmission, receive or send
/// error of the kind `Io`, whose trace ends with the context and the I/O
/// failure's message.
pub proof fn lemma_io_errors(e: ErrWithContext<IoError>)
    ensures
        <TxError as FromSpec<ErrWithContext<IoError>>>::from_spec(e).spec_kind()
            == TxErrorKind::Io,
        <RecvError as FromSpec<ErrWithContext<IoError>>>::from_spec(e).spec_kind()
            == RecvErrorKind::Io,
        <SendError as FromSpec<ErrWithContext<IoError>>>::from_spec(e).spec_kind()
            == SendErrorKind::Io,
        <TxError as FromSpec<ErrWithContext<IoError>>>::from_spec(e).cause_chain().last()
            == e.context@ + ": "@ + e.inner.message@,
        <RecvError as FromSpec<ErrWithContext<IoError>>>::from_spec(e).cause_chain().last()
            == e.context@ + ": "@ + e.inner.message@,
        <SendError as FromSpec<ErrWithContext<IoError>>>::from_spec(e).cause_chain().last()
            == e.context@ + ": "@ + e.inner.message@,
{
}

/// A codec failure becomes a receive error of the kind
/// `PayloadDeserializationFailure`, or a send error of the kind
/// `PayloadSerializationFailure`, whose chain ends with the codec's message.
pub proof fn lemma_codec_errors(e: CodecError)
    ensures
        <RecvError as FromSpec<CodecError>>::from_spec(e).spec_kind()
            == RecvErrorKind::PayloadDeserializationFailure,
        <SendError as FromSpec<CodecError>>::from_spec(e).spec_kind()
            == SendErrorKind::PayloadSerializationFailure,
        <RecvError as FromSpec<CodecError>>::from_spec(e).cause_chain() == seq![
            "Receive error"@,
            e.message@,
        ],
        <SendError as FromSpec<CodecError>>::from_spec(e).cause_chain() == seq![
            "Send error"@,
            e.message@,
        ],
{
    assert(seq!["Receive error"@] + seq![e.message@] =~= seq!["Receive error"@, e.message@]);
    assert(seq!["Send error"@] + seq![e.message@] =~= seq!["Send error"@, e.message@]);
}

/// The variants that carry no cause report their kind and nothing else: the
/// trace of such an error is its own message.
pub proof fn lemma_plain_errors(version: u8)
    ensures
        TxError::HandshakeFailure.spec_kind() == TxErrorKind::HandshakeFailure,
        (TxError::IncompatibleProtocol { version }).spec_kind()
            == TxErrorKind::IncompatibleProtocol,
        RecvError::PayloadTooLarge.spec_kind() == RecvErrorKind::PayloadTooLarge,
        RecvError::GarbageData.spec_kind() == RecvErrorKind::GarbageData,
        join_trace(TxError::HandshakeFailure.cause_chain()) == "Handshake failure"@,
        join_trace((TxError::IncompatibleProtocol { version }).cause_chain())
            == "Incompatible protocol version "@ + decimal(version as nat),
        join_trace(RecvError::PayloadTooLarge.cause_chain()) == "Payload too large"@,
        join_trace(RecvError::GarbageData.cause_chain()) == "Garbage data"@,
{
}

} // verus!
