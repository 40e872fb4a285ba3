use vstd::prelude::*;

verus! {

/// `libc::EPOLLIN`: readiness for reading.
#[verifier::external_body]
fn epoll_in() -> (v: i32)
    ensures
        v == 0x1,
{
    libc::EPOLLIN
}

/// `libc::EPOLLOUT`: readiness for writing.
#[verifier::external_body]
fn epoll_out() -> (v: i32)
    ensures
        v == 0x4,
{
    libc::EPOLLOUT
}

/// `libc::EPOLLERR`: an error condition on the descriptor.
#[verifier::external_body]
fn epoll_err() -> (v: i32)
    ensures
        v == 0x8,
{
    libc::EPOLLERR
}

/// `libc::EPOLLHUP`: the peer hung up.
#[verifier::external_body]
fn epoll_hup() -> (v: i32)
    ensures
        v == 0x10,
{
    libc::EPOLLHUP
}

/// `dbus::WatchEvent::Readable` as a flag bit.
#[verifier::external_body]
fn dbus_readable() -> (v: u32)
    ensures
        v == 1,
{
    dbus::WatchEvent::Readable as u32
}

/// `dbus::WatchEvent::Writable` as a flag bit.
#[verifier::external_body]
fn dbus_writable() -> (v: u32)
    ensures
        v == 2,
{
    dbus::WatchEvent::Writable as u32
}

/// `dbus::WatchEvent::Error` as a flag bit.
#[verifier::external_body]
fn dbus_error() -> (v: u32)
    ensures
        v == 4,
{
    dbus::WatchEvent::Error as u32
}

/// `dbus::WatchEvent::Hangup` as a flag bit.
#[verifier::external_body]
fn dbus_hangup() -> (v: u32)
    ensures
        v == 8,
{
    dbus::WatchEvent::Hangup as u32
}

/// The bit of `libc::EPOLLIN`.
pub open spec fn spec_epoll_in() -> i32 {
    0x1
}

/// The bit of `libc::EPOLLOUT`.
pub open spec fn spec_epoll_out() -> i32 {
    0x4
}

/// The set of readiness events an epoll watch is registered for.
#[derive(Debug, Clone, Copy, PartialEq, Eq, Structural, Hash)]
pub struct WatchMode(pub i32);

impl WatchMode {
    /// Watch for readability only.
    pub fn ro() -> (m: Self)
        ensures
            m.0 == spec_epoll_in(),
    {
        Self(epoll_in())
    }

    /// Watch for writability only.
    pub fn wo() -> (m: Self)
        ensures
            m.0 == spec_epoll_out(),
    {
        Self(epoll_out())
    }

    /// Watch for both readability and writability.
    pub fn rw() -> (m: Self)
        ensures
            m.0 == spec_epoll_in() | spec_epoll_out(),
    {
        let r = epoll_in();
        let w = epoll_out();
        Self(r | w)
    }

    /// Watch for nothing.
    pub fn none() -> (m: Self)
        ensures
            m.0 == 0,
    {
        Self(0)
    }

    /// The mode that watches for reading when `read`, for writing when `write`.
    pub fn from_bool_rw(read: bool, write: bool) -> (m: Self)
        ensures
            m.0 == spec_mode_bits(read, write),
    {
        match (read, write) {
            (true, true) => Self::rw(),
            (true, false) => Self::ro(),
            (false, true) => Self::wo(),
            (false, false) => Self::none(),
        }
    }

    /// The raw epoll event bits of this mode.
    pub fn bits(&self) -> (b: i32)
        ensures
            b == self.0,
    {
        self.0
    }
}

/// The epoll bits of the mode that watches for reading when `read` and for
/// writing when `write`.
pub open spec fn spec_mode_bits(read: bool, write: bool) -> i32 {
    if read && write {
        spec_epoll_in() | spec_epoll_out()
    } else if read {
        spec_epoll_in()
    } else if write {
        spec_epoll_out()
    } else {
        0
    }
}

/// What to do with a D-Bus descriptor whose wanted readiness changed.
#[derive(Debug, Clone, Copy, PartialEq, Eq, Structural)]
pub enum WatchAction {
    /// Stop watching it: D-Bus wants neither reading nor writing.
    Unwatch,
    /// Change the watch to this mode (or add one, if it is not watched).
    ChangeMode(WatchMode),
}

/// D-Bus wants to read when `readable` and to write when `writable`: stop
/// watching the descriptor if it wants neither, else watch it for what it
/// wants.
pub fn watch_update(readable: bool, writable: bool) -> (a: WatchAction)
    ensures
        (!readable && !writable) ==> a == WatchAction::Unwatch,
        (readable || writable) ==> a == WatchAction::ChangeMode(
            WatchMode(spec_mode_bits(readable, writable)),
        ),
{
    let mode = WatchMode::from_bool_rw(readable, writable);
    proof {
        lemma_mode_bits(readable, writable);
    }
    if mode == WatchMode::none() {
        WatchAction::Unwatch
    } else {
        WatchAction::ChangeMode(mode)
    }
}

/// Changing the mode of a watch failed: if the descriptor was not watched,
/// watch it with that mode; any other failure is fatal (`None`).
pub fn on_change_mode_error(mode: WatchMode, not_found: bool) -> (r: Option<WatchMode>)
    ensures
        r == (if not_found { Some(mode) } else { None::<WatchMode> }),
{
    if not_found {
        Some(mode)
    } else {
        None
    }
}

/// The mode to watch a D-Bus descriptor with when the receiver starts: none
/// if D-Bus wants neither reading nor writing.
pub fn initial_watch(readable: bool, writable: bool) -> (r: Option<WatchMode>)
    ensures
        (!readable && !writable) ==> r is None,
        (readable || writable) ==> r == Some(WatchMode(spec_mode_bits(readable, writable))),
{
    let mode = WatchMode::from_bool_rw(readable, writable);
    proof {
        lemma_mode_bits(readable, writable);
    }
    if mode == WatchMode::none() {
        None
    } else {
        Some(mode)
    }
}

/// A readiness event that epoll reported.
#[derive(Debug, Clone, Copy, PartialEq, Eq, Structural)]
pub struct Event {
    /// The descriptor it is about.
    pub rawfd: i32,
    /// The epoll readiness bits.
    pub flags: i32,
}

/// The D-Bus watch flags that the epoll bits `flags` stand for.
pub open spec fn spec_dbus_flags(flags: i32) -> u32 {
    (if flags & spec_epoll_in() != 0 { 1u32 } else { 0u32 }) | (if flags & spec_epoll_out() != 0 {
        2u32
    } else {
        0u32
    }) | (if flags & 0x8i32 != 0 { 4u32 } else { 0u32 }) | (if flags & 0x10i32 != 0 {
        8u32
    } else {
        0u32
    })
}

impl Event {
    /// The event of an epoll record: its data word holds the descriptor.
    pub fn from_raw(events: u32, data: u64) -> (e: Self)
        ensures
            e.rawfd == data as i32,
            e.flags == events as i32,
    {
        Event { rawfd: data as i32, flags: events as i32 }
    }

    /// Whether the event is about the descriptor `fd`.
    pub fn relates_to(&self, fd: i32) -> (b: bool)
        ensures
            b == (self.rawfd == fd),
    {
        self.rawfd == fd
    }

    /// The descriptor the event is about.
    pub fn fd(&self) -> (fd: i32)
        ensures
            fd == self.rawfd,
    {
        self.rawfd
    }

    /// The D-Bus watch flags for this event: readable for input, writable for
    /// output, error for an error, hangup for a hang-up.
    pub fn dbus_flags(&self) -> (f: u32)
        ensures
            f == spec_dbus_flags(self.flags),
    {
        let readable = if self.flags & epoll_in() != 0 {
            dbus_readable()
        } else {
            0
        };
        let writable = if self.flags & epoll_out() != 0 {
            dbus_writable()
        } else {
            0
        };
        let error = if self.flags & epoll_err() != 0 {
            dbus_error()
        } else {
            0
        };
        let hangup = if self.flags & epoll_hup() != 0 {
            dbus_hangup()
        } else {
            0
        };
        readable | writable | error | hangup
    }
}

// ---------------------------------------------------------------------------
// Laws
// ---------------------------------------------------------------------------

/// A mode watches for reading exactly when asked to read, and for writing
/// exactly when asked to write; it is empty exactly when asked for neither.
pub proof fn lemma_mode_bits(read: bool, write: bool)
    ensures
        (spec_mode_bits(read, write) & spec_epoll_in() != 0) == read,
        (spec_mode_bits(read, write) & spec_epoll_out() != 0) == write,
        (spec_mode_bits(read, write) == 0) == (!read && !write),
{
    assert((0x1i32 | 0x4i32) & 0x1i32 != 0) by (bit_vector);
    assert((0x1i32 | 0x4i32) & 0x4i32 != 0) by (bit_vector);
    assert((0x1i32 | 0x4i32) != 0) by (bit_vector);
    assert(0x1i32 & 0x4i32 == 0) by (bit_vector);
    assert(0x4i32 & 0x1i32 == 0) by (bit_vector);
    assert(0x1i32 & 0x1i32 != 0) by (bit_vector);
    assert(0x4i32 & 0x4i32 != 0) by (bit_vector);
    assert(0i32 & 0x1i32 == 0) by (bit_vector);
    assert(0i32 & 0x4i32 == 0) by (bit_vector);
}

/// Each epoll readiness bit sets its own D-Bus watch flag and no other: the
/// readable flag for input, writable for output, error for an error, hangup
/// for a hang-up; no other bits are set.
pub proof fn lemma_dbus_flags(flags: i32)
    ensures
        (spec_dbus_flags(flags) & 1 != 0) == (flags & 0x1 != 0),
        (spec_dbus_flags(flags) & 2 != 0) == (flags & 0x4 != 0),
        (spec_dbus_flags(flags) & 4 != 0) == (flags & 0x8 != 0),
        (spec_dbus_flags(flags) & 8 != 0) == (flags & 0x10 != 0),
        spec_dbus_flags(flags) & !0xfu32 == 0,
{
    let f = spec_dbus_flags(flags);
    assert({
        &&& (f & 1u32 != 0) == (flags & 0x1i32 != 0)
        &&& (f & 2u32 != 0) == (flags & 0x4i32 != 0)
        &&& (f & 4u32 != 0) == (flags & 0x8i32 != 0)
        &&& (f & 8u32 != 0) == (flags & 0x10i32 != 0)
        &&& f & !0xfu32 == 0
    }) by (bit_vector)
        requires
            f == (if flags & 0x1i32 != 0 { 1u32 } else { 0u32 }) | (if flags & 0x4i32 != 0 {
                2u32
            } else {
                0u32
            }) | (if flags & 0x8i32 != 0 { 4u32 } else { 0u32 }) | (if flags & 0x10i32 != 0 {
                8u32
            } else {
                0u32
            }),
    ;
}

} // verus!
