use vstd::prelude::*;
use vstd::string::*;
use byteorder::{ByteOrder, LittleEndian};
use crate::errors::{ErrWithContext, IoError, RecvError, RecvErrorKind, SendError, SendErrorKind, Cause};

verus! {

// ---------------------------------------------------------------------------
// The frame format
//
// Every message travels as a frame: the twelve bytes "FACEBOOK_CAT", the
// payload's size as a little-endian u16, then the payload.
// ---------------------------------------------------------------------------

/// The size of the receive buffer: the largest payload that is accepted.
pub const BUFFER_SIZE: usize = 1024;

/// The version of the protocol spoken here.
pub const PROTOCOL_VERSION: u8 = 0;

/// The length of the frame header's magic.
pub const MAGIC_LEN: usize = 12;

/// The length of the frame's payload size field.
pub const SIZE_LEN: usize = 2;

/// The magic that starts every unencrypted frame: "FACEBOOK_CAT".
pub open spec fn spec_eavesdrop_magic() -> Seq<u8> {
    seq![70u8, 65u8, 67u8, 69u8, 66u8, 79u8, 79u8, 75u8, 95u8, 67u8, 65u8, 84u8]
}

/// The magic that starts every unencrypted frame: "FACEBOOK_CAT".
pub fn eavesdrop_magic() -> (m: [u8; 12])
    ensures
        m@ == spec_eavesdrop_magic(),
{
    let m: [u8; 12] = [70u8, 65u8, 67u8, 69u8, 66u8, 79u8, 79u8, 75u8, 95u8, 67u8, 65u8, 84u8];
    assert(m@ =~= spec_eavesdrop_magic());
    m
}

/// The two bytes of `n`, least significant first.
pub open spec fn le_bytes(n: u16) -> Seq<u8> {
    seq![(n % 256) as u8, (n / 256) as u8]
}

/// The number whose little-endian bytes are `b[0]`, `b[1]`.
pub open spec fn le_value(b: Seq<u8>) -> nat {
    (b[0] as nat) + 256 * (b[1] as nat)
}

/// `LittleEndian::read_u16`: the first two bytes of `buf` read as a
/// little-endian number.
#[verifier::external_body]
fn le_read_u16(buf: &[u8]) -> (n: u16)
    requires
        buf@.len() >= 2,
    ensures
        n as nat == le_value(buf@),
{
    LittleEndian::read_u16(buf)
}

/// `LittleEndian::write_u16`: `n` written over the first two bytes of `buf`,
/// least significant first; the other bytes stay.
#[verifier::external_body]
fn le_write_u16(buf: &mut Vec<u8>, n: u16)
    requires
        old(buf)@.len() >= 2,
    ensures
        final(buf)@ == old(buf)@.update(0, (n % 256) as u8).update(1, (n / 256) as u8),
{
    LittleEndian::write_u16(buf.as_mut_slice(), n)
}

/// The frame header for a payload of `payload_size` bytes: the magic, then the
/// size cut to 16 bits, little-endian.
pub open spec fn spec_frame_header(payload_size: u64) -> Seq<u8> {
    spec_eavesdrop_magic() + le_bytes((payload_size % 0x10000) as u16)
}

/// The header that goes before a payload of `payload_size` bytes. A size above
/// `u16::MAX` is cut to its low 16 bits, as the size field holds no more.
pub fn frame_header(payload_size: u64) -> (h: Vec<u8>)
    ensures
        h@ == spec_frame_header(payload_size),
{
    let magic = eavesdrop_magic();
    let mut h: Vec<u8> = Vec::new();
    let mut i: usize = 0;
    while i < MAGIC_LEN
        invariant
            i <= MAGIC_LEN,
            magic@ == spec_eavesdrop_magic(),
            h@ =~= spec_eavesdrop_magic().subrange(0, i as int),
        decreases MAGIC_LEN - i,
    {
        h.push(magic[i]);
        i = i + 1;
    }
    let mut size_field: Vec<u8> = vec![0u8, 0u8];
    let truncated = payload_size as u16;
    assert(truncated == (payload_size % 0x10000) as u16) by (bit_vector)
        requires
            truncated == payload_size as u16,
    ;
    le_write_u16(&mut size_field, truncated);
    h.push(size_field[0]);
    h.push(size_field[1]);
    assert(h@ =~= spec_frame_header(payload_size));
    h
}

// ---------------------------------------------------------------------------
// Receiving
// ---------------------------------------------------------------------------

/// Which part of a frame the receiver waits for.
#[derive(Debug, Clone, Copy, PartialEq, Eq, Structural)]
pub enum RecvStage {
    /// The magic.
    Header,
    /// The payload size field.
    PayloadSize,
    /// A payload of the given size.
    Payload(usize),
}

/// What the receiver asks for next.
#[derive(Debug, Clone, Copy, PartialEq, Eq, Structural)]
pub enum RecvStep {
    /// Read exactly this many bytes and hand them to `received`.
    Read(usize),
    /// The payload is in the buffer: decode the buffer.
    Decode,
}

/// The number of bytes the receiver waits for at `stage`.
pub open spec fn spec_wanted(stage: RecvStage) -> nat {
    match stage {
        RecvStage::Header => MAGIC_LEN as nat,
        RecvStage::PayloadSize => SIZE_LEN as nat,
        RecvStage::Payload(n) => n as nat,
    }
}

/// `bytes` written over the start of `buf`; the rest of `buf` stays.
pub open spec fn overwrite_prefix(buf: Seq<u8>, bytes: Seq<u8>) -> Seq<u8> {
    bytes + buf.subrange(bytes.len() as int, buf.len() as int)
}

/// One step of the receiver: the buffer after `bytes` were read into it, the
/// next stage, and what the step gives.
pub open spec fn spec_receive(buf: Seq<u8>, stage: RecvStage, bytes: Seq<u8>) -> (
    Seq<u8>,
    RecvStage,
    Result<RecvStep, RecvError>,
) {
    let buf2 = overwrite_prefix(buf, bytes);
    match stage {
        RecvStage::Header => if bytes == spec_eavesdrop_magic() {
            (buf2, RecvStage::PayloadSize, Ok(RecvStep::Read(SIZE_LEN)))
        } else {
            (buf2, RecvStage::Header, Err(RecvError::GarbageData))
        },
        RecvStage::PayloadSize => {
            let size = le_value(bytes);
            if size > BUFFER_SIZE {
                (buf2, RecvStage::Header, Err(RecvError::PayloadTooLarge))
            } else {
                (buf2, RecvStage::Payload(size as usize), Ok(RecvStep::Read(size as usize)))
            }
        },
        RecvStage::Payload(_) => (buf2, RecvStage::Header, Ok(RecvStep::Decode)),
    }
}

/// The context that a failed read is reported with at `stage`.
pub open spec fn spec_read_context(stage: RecvStage) -> Seq<char> {
    match stage {
        RecvStage::Header => "receiving message header"@,
        RecvStage::PayloadSize => "receiving message payload size"@,
        RecvStage::Payload(_) => "receiving message payload"@,
    }
}

/// The receiving half of a connection: the receive buffer and how far the
/// current frame has come.
pub struct Connection {
    buf: Vec<u8>,
    stage: RecvStage,
}

impl Connection {
    /// The buffer holds exactly `BUFFER_SIZE` bytes and a payload never
    /// exceeds it.
    pub closed spec fn wf(&self) -> bool {
        &&& self.buf@.len() == BUFFER_SIZE
        &&& match self.stage {
            RecvStage::Payload(n) => n <= BUFFER_SIZE,
            _ => true,
        }
    }

    /// The contents of the receive buffer.
    pub closed spec fn spec_buffer(&self) -> Seq<u8> {
        self.buf@
    }

    /// The part of a frame the connection waits for.
    pub closed spec fn spec_stage(&self) -> RecvStage {
        self.stage
    }

    /// A connection with a zeroed buffer, waiting for a frame's header.
    pub fn new() -> (c: Self)
        ensures
            c.wf(),
            c.spec_buffer() == Seq::new(BUFFER_SIZE as nat, |i: int| 0u8),
            c.spec_stage() == RecvStage::Header,
    {
        let buf = vec_of_zeros(BUFFER_SIZE);
        Connection { buf, stage: RecvStage::Header }
    }

    /// The number of bytes to read next.
    pub fn wanted(&self) -> (n: usize)
        requires
            self.wf(),
        ensures
            n == spec_wanted(self.spec_stage()),
            n <= BUFFER_SIZE,
    {
        match self.stage {
            RecvStage::Header => MAGIC_LEN,
            RecvStage::PayloadSize => SIZE_LEN,
            RecvStage::Payload(n) => n,
        }
    }

    /// The part of a frame the connection waits for.
    pub fn stage(&self) -> (s: RecvStage)
        ensures
            s == self.spec_stage(),
    {
        self.stage
    }

    /// The receive buffer; once a step gave `Decode`, the payload is at its
    /// start.
    pub fn buffer(&self) -> (b: &[u8])
        ensures
            b@ == self.spec_buffer(),
    {
        self.buf.as_slice()
    }

    /// Takes the bytes that were read for the current stage: checks the magic,
    /// or the announced size, or takes the payload; says what to do next.
    pub fn received(&mut self, bytes: &[u8]) -> (r: Result<RecvStep, RecvError>)
        requires
            old(self).wf(),
            bytes@.len() == spec_wanted(old(self).spec_stage()),
        ensures
            final(self).wf(),
            (final(self).spec_buffer(), final(self).spec_stage(), r) == spec_receive(
                old(self).spec_buffer(),
                old(self).spec_stage(),
                bytes@,
            ),
    {
        self.write_prefix(bytes);
        match self.stage {
            RecvStage::Header => {
                if is_eavesdrop_magic(bytes) {
                    self.stage = RecvStage::PayloadSize;
                    Ok(RecvStep::Read(SIZE_LEN))
                } else {
                    self.stage = RecvStage::Header;
                    Err(RecvError::GarbageData)
                }
            },
            RecvStage::PayloadSize => {
                let size = le_read_u16(bytes) as usize;
                if size > BUFFER_SIZE {
                    self.stage = RecvStage::Header;
                    Err(RecvError::PayloadTooLarge)
                } else {
                    self.stage = RecvStage::Payload(size);
                    Ok(RecvStep::Read(size))
                }
            },
            RecvStage::Payload(_) => {
                self.stage = RecvStage::Header;
                Ok(RecvStep::Decode)
            },
        }
    }

    /// A read for the current stage failed: the error, with the context of
    /// what was being read; the connection waits for a new frame.
    pub fn read_failed(&mut self, err: IoError) -> (r: RecvError)
        requires
            old(self).wf(),
        ensures
            final(self).wf(),
            final(self).spec_buffer() == old(self).spec_buffer(),
            final(self).spec_stage() == RecvStage::Header,
            r matches RecvError::Generic(Cause::Io(e), RecvErrorKind::Io) && e.inner == err
                && e.context@ == spec_read_context(old(self).spec_stage()),
    {
        let context = match self.stage {
            RecvStage::Header => String::from_str("receiving message header"),
            RecvStage::PayloadSize => String::from_str("receiving message payload size"),
            RecvStage::Payload(_) => String::from_str("receiving message payload"),
        };
        self.stage = RecvStage::Header;
        RecvError::Generic(Cause::Io(ErrWithContext { inner: err, context }), RecvErrorKind::Io)
    }

    fn write_prefix(&mut self, bytes: &[u8])
        requires
            old(self).wf(),
            bytes@.len() <= BUFFER_SIZE,
        ensures
            final(self).wf(),
            final(self).stage == old(self).stage,
            final(self).buf@ == overwrite_prefix(old(self).buf@, bytes@),
    {
        let n = bytes.len();
        let mut i: usize = 0;
        while i < n
            invariant
                n == bytes@.len(),
                n <= BUFFER_SIZE,
                i <= n,
                self.wf(),
                self.stage == old(self).stage,
                forall|k: int| 0 <= k < i ==> self.buf@[k] == bytes@[k],
                forall|k: int| i <= k < BUFFER_SIZE ==> self.buf@[k] == old(self).buf@[k],
            decreases n - i,
        {
            self.buf.set(i, bytes[i]);
            i = i + 1;
        }
        assert(self.buf@ =~= overwrite_prefix(old(self).buf@, bytes@));
    }
}

fn vec_of_zeros(n: usize) -> (v: Vec<u8>)
    ensures
        v@ == Seq::new(n as nat, |i: int| 0u8),
{
    let mut v: Vec<u8> = Vec::new();
    let mut i: usize = 0;
    while i < n
        invariant
            i <= n,
            v@ =~= Seq::new(i as nat, |k: int| 0u8),
        decreases n - i,
    {
        v.push(0u8);
        i = i + 1;
    }
    v
}

/// Whether `bytes` are the twelve bytes of the magic.
pub fn is_eavesdrop_magic(bytes: &[u8]) -> (b: bool)
    ensures
        b == (bytes@ == spec_eavesdrop_magic()),
{
    let magic = eavesdrop_magic();
    if bytes.len() != MAGIC_LEN {
        return false;
    }
    let mut i: usize = 0;
    while i < MAGIC_LEN
        invariant
            i <= MAGIC_LEN,
            bytes@.len() == MAGIC_LEN,
            magic@ == spec_eavesdrop_magic(),
            forall|k: int| 0 <= k < i ==> bytes@[k] == magic@[k],
        decreases MAGIC_LEN - i,
    {
        if bytes[i] != magic[i] {
            return false;
        }
        i = i + 1;
    }
    assert(bytes@ =~= spec_eavesdrop_magic());
    true
}


// ---------------------------------------------------------------------------
// Reading exactly, and writing
// ---------------------------------------------------------------------------

/// What one read of the stream gave.
#[derive(Debug)]
pub enum ReadResult {
    /// This many bytes arrived.
    Bytes(usize),
    /// The read was interrupted before anything arrived.
    Interrupted,
    /// The read failed.
    Failed(IoError),
}

/// Where reading an exact number of bytes stands after one read.
#[derive(Debug)]
pub enum ReadProgress {
    /// This many bytes are still missing (none: the read is complete).
    Remaining(usize),
    /// The stream ended before all bytes arrived: the connection was aborted.
    Aborted,
    /// The read failed.
    Failed(IoError),
}

/// After one read while `remaining` bytes were missing: an end of stream
/// aborts, an interruption is retried, bytes that arrived count, and a
/// failure ends the reading.
pub fn read_progress(remaining: usize, r: ReadResult) -> (p: ReadProgress)
    requires
        remaining > 0,
        r matches ReadResult::Bytes(n) ==> n <= remaining,
    ensures
        match r {
            ReadResult::Bytes(n) => if n == 0 {
                p matches ReadProgress::Aborted
            } else {
                p matches ReadProgress::Remaining(m) && m == remaining - n
            },
            ReadResult::Interrupted => p matches ReadProgress::Remaining(m) && m == remaining,
            ReadResult::Failed(e) => p == ReadProgress::Failed(e),
        },
{
    match r {
        ReadResult::Bytes(n) => {
            if n == 0 {
                ReadProgress::Aborted
            } else {
                ReadProgress::Remaining(remaining - n)
            }
        },
        ReadResult::Interrupted => ReadProgress::Remaining(remaining),
        ReadResult::Failed(e) => ReadProgress::Failed(e),
    }
}

/// Which part of a frame the sender was writing.
#[derive(Debug, Clone, Copy, PartialEq, Eq, Structural)]
pub enum SendStage {
    /// The magic.
    Header,
    /// The payload size field.
    PayloadSize,
}

/// The context that a failed write is reported with at `stage`.
pub open spec fn spec_write_context(stage: SendStage) -> Seq<char> {
    match stage {
        SendStage::Header => "sending message header"@,
        SendStage::PayloadSize => "sending message payload size"@,
    }
}

/// A write of part of a frame failed: the error, with the context of what
/// was being written.
pub fn write_failed(stage: SendStage, err: IoError) -> (r: SendError)
    ensures
        r matches SendError::Generic(Cause::Io(e), SendErrorKind::Io) && e.inner == err
            && e.context@ == spec_write_context(stage),
{
    let context = match stage {
        SendStage::Header => String::from_str("sending message header"),
        SendStage::PayloadSize => String::from_str("sending message payload size"),
    };
    SendError::Generic(Cause::Io(ErrWithContext { inner: err, context }), SendErrorKind::Io)
}

// ---------------------------------------------------------------------------
// Laws
// ---------------------------------------------------------------------------

/// A frame written by the sender is read back by the receiver: whatever the
/// buffer held, feeding a receiver that waits for a header the frame's magic,
/// then its size field, then a payload of at most `BUFFER_SIZE` bytes asks for
/// exactly those parts in turn, ends asking to decode, leaves the payload at
/// the start of the buffer, and waits for the next frame.
pub proof fn lemma_frame_roundtrip(buf: Seq<u8>, payload: Seq<u8>)
    requires
        buf.len() == BUFFER_SIZE,
        payload.len() <= BUFFER_SIZE,
    ensures
        ({
            let header = spec_frame_header(payload.len() as u64);
            let (b1, s1, r1) = spec_receive(buf, RecvStage::Header, header.subrange(0, 12));
            let (b2, s2, r2) = spec_receive(b1, s1, header.subrange(12, 14));
            let (b3, s3, r3) = spec_receive(b2, s2, payload);
            &&& header.len() == 14
            &&& r1 == Ok::<RecvStep, RecvError>(RecvStep::Read(SIZE_LEN))
            &&& r2 == Ok::<RecvStep, RecvError>(RecvStep::Read(payload.len() as usize))
            &&& r3 == Ok::<RecvStep, RecvError>(RecvStep::Decode)
            &&& s3 == RecvStage::Header
            &&& b3.len() == BUFFER_SIZE
            &&& b3.subrange(0, payload.len() as int) == payload
        }),
{
    let header = spec_frame_header(payload.len() as u64);
    assert(header.subrange(0, 12) =~= spec_eavesdrop_magic());
    let size_bytes = header.subrange(12, 14);
    let n = (payload.len() % 0x10000) as u16;
    assert(size_bytes =~= le_bytes(n));
    assert(le_value(size_bytes) == payload.len());
    let (b1, s1, r1) = spec_receive(buf, RecvStage::Header, header.subrange(0, 12));
    let (b2, s2, r2) = spec_receive(b1, s1, size_bytes);
    let (b3, s3, r3) = spec_receive(b2, s2, payload);
    assert(b3.subrange(0, payload.len() as int) =~= payload);
}

/// Twelve bytes other than the magic are refused as garbage, and the receiver
/// waits for a new frame.
pub proof fn lemma_garbage_refused(buf: Seq<u8>, bytes: Seq<u8>)
    requires
        bytes.len() == MAGIC_LEN,
        bytes != spec_eavesdrop_magic(),
    ensures
        spec_receive(buf, RecvStage::Header, bytes).1 == RecvStage::Header,
        spec_receive(buf, RecvStage::Header, bytes).2 matches Err(RecvError::GarbageData),
{
}

/// A size field announcing more than `BUFFER_SIZE` bytes is refused as too
/// large, and the receiver waits for a new frame.
pub proof fn lemma_oversize_refused(buf: Seq<u8>, size: u16)
    requires
        size > BUFFER_SIZE,
    ensures
        spec_receive(buf, RecvStage::PayloadSize, le_bytes(size)).1 == RecvStage::Header,
        spec_receive(buf, RecvStage::PayloadSize, le_bytes(size)).2 matches Err(
            RecvError::PayloadTooLarge,
        ),
{
    assert(le_value(le_bytes(size)) == size);
}

/// Every frame header is fourteen bytes: the magic, then the size field.
pub proof fn lemma_frame_header_shape(payload_size: u64)
    ensures
        spec_frame_header(payload_size).len() == MAGIC_LEN + SIZE_LEN,
        spec_frame_header(payload_size).subrange(0, 12) == spec_eavesdrop_magic(),
        le_value(spec_frame_header(payload_size).subrange(12, 14)) == payload_size % 0x10000,
{
    let h = spec_frame_header(payload_size);
    assert(h.subrange(0, 12) =~= spec_eavesdrop_magic());
    assert(h.subrange(12, 14) =~= le_bytes((payload_size % 0x10000) as u16));
}

/// Whatever arrives, a step of the receiver keeps its buffer at
/// `BUFFER_SIZE` bytes, never waits for a payload larger than the buffer,
/// and after a refusal waits for a new frame.
pub proof fn lemma_receive_stays_in_bounds(buf: Seq<u8>, stage: RecvStage, bytes: Seq<u8>)
    requires
        buf.len() == BUFFER_SIZE,
        bytes.len() == spec_wanted(stage),
        stage matches RecvStage::Payload(n) ==> n <= BUFFER_SIZE,
    ensures
        spec_receive(buf, stage, bytes).0.len() == BUFFER_SIZE,
        spec_receive(buf, stage, bytes).1 matches RecvStage::Payload(n) ==> n <= BUFFER_SIZE,
        spec_receive(buf, stage, bytes).2 is Err ==> spec_receive(buf, stage, bytes).1
            == RecvStage::Header,
        spec_receive(buf, stage, bytes).2 matches Ok(RecvStep::Read(n)) ==> n as nat
            == spec_wanted(spec_receive(buf, stage, bytes).1),
{
}

} // verus!
