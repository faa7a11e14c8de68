//! Records of the audit trail: which security-relevant event happened, for
//! whom, on what, and whether it succeeded. Writing them out is the job of a
//! background writer outside this crate; a record is built here.

use vstd::prelude::*;
use crate::text::{owned, push_char};

verus! {

/// The closed set of events that the audit trail knows.
#[derive(Debug, Clone, Copy, PartialEq, Eq, Structural)]
pub enum AuditEvent {
    ServerStart,
    ServerStop,
    Connect,
    Disconnect,
    FileReceived,
    FileRejected,
    ListRequest,
    StatusRequest,
    FileRequest,
    Error,
}

/// One audit record.
#[derive(Debug, Clone, PartialEq, Eq)]
pub struct AuditEntry {
    /// Local time of the event, in RFC 3339 form.
    pub timestamp: String,
    pub event: AuditEvent,
    /// Address of the peer, when the event concerns one.
    pub remote: Option<String>,
    pub path: Option<String>,
    pub size: Option<u64>,
    pub success: bool,
    pub message: Option<String>,
}

/// An audit record as a mathematical value, without its time stamp.
pub ghost struct AuditView {
    pub event: AuditEvent,
    pub remote: Option<Seq<char>>,
    pub path: Option<Seq<char>>,
    pub size: Option<u64>,
    pub success: bool,
    pub message: Option<Seq<char>>,
}

/// The view of an optional string.
pub open spec fn opt_view(s: Option<String>) -> Option<Seq<char>> {
    match s {
        Some(t) => Some(t@),
        None => None,
    }
}

impl View for AuditEntry {
    type V = AuditView;

    open spec fn view(&self) -> AuditView {
        AuditView {
            event: self.event,
            remote: opt_view(self.remote),
            path: opt_view(self.path),
            size: self.size,
            success: self.success,
            message: opt_view(self.message),
        }
    }
}

/// A fresh record of `event`: successful, with nothing else filled in.
pub open spec fn fresh(event: AuditEvent) -> AuditView {
    AuditView { event, remote: None, path: None, size: None, success: true, message: None }
}

/// The name under which the audit file spells an event.
pub open spec fn event_name(e: AuditEvent) -> Seq<char> {
    match e {
        AuditEvent::ServerStart => "server_start"@,
        AuditEvent::ServerStop => "server_stop"@,
        AuditEvent::Connect => "connect"@,
        AuditEvent::Disconnect => "disconnect"@,
        AuditEvent::FileReceived => "file_received"@,
        AuditEvent::FileRejected => "file_rejected"@,
        AuditEvent::ListRequest => "list_request"@,
        AuditEvent::StatusRequest => "status_request"@,
        AuditEvent::FileRequest => "file_request"@,
        AuditEvent::Error => "error"@,
    }
}


/// The Rust-style name of an event, as a human-readable line shows it.
pub open spec fn event_label(e: AuditEvent) -> Seq<char> {
    match e {
        AuditEvent::ServerStart => "ServerStart"@,
        AuditEvent::ServerStop => "ServerStop"@,
        AuditEvent::Connect => "Connect"@,
        AuditEvent::Disconnect => "Disconnect"@,
        AuditEvent::FileReceived => "FileReceived"@,
        AuditEvent::FileRejected => "FileRejected"@,
        AuditEvent::ListRequest => "ListRequest"@,
        AuditEvent::StatusRequest => "StatusRequest"@,
        AuditEvent::FileRequest => "FileRequest"@,
        AuditEvent::Error => "Error"@,
    }
}

/// The decimal digit for `d`.
pub open spec fn digit_char(d: nat) -> char {
    if d == 0 { '0' } else if d == 1 { '1' } else if d == 2 { '2' } else if d == 3 { '3' }
    else if d == 4 { '4' } else if d == 5 { '5' } else if d == 6 { '6' } else if d == 7 { '7' }
    else if d == 8 { '8' } else { '9' }
}

/// `n` in decimal, without leading zeros.
pub open spec fn decimal(n: nat) -> Seq<char>
    decreases n,
{
    if n < 10 {
        seq![digit_char(n)]
    } else {
        decimal(n / 10).push(digit_char(n % 10))
    }
}

/// An RFC 3339 time stamp as `YYYY-MM-DD HH:MM:SS`: its first nineteen
/// characters with the `T` between date and time turned into a space.
/// Shorter text is shown as it is.
pub open spec fn display_time(ts: Seq<char>) -> Seq<char> {
    if ts.len() >= 19 {
        ts.subrange(0, 10) + seq![' '] + ts.subrange(11, 19)
    } else {
        ts
    }
}

/// Some text, or `-` for none.
pub open spec fn or_dash(o: Option<Seq<char>>) -> Seq<char> {
    match o {
        Some(t) => t,
        None => "-"@,
    }
}

/// The human-readable line of a record:
/// `[time] mark Event from remote path=path`, then ` size=N` and ` (message)`
/// when present; the mark is a check mark for success, a cross otherwise.
pub open spec fn summary_of(ts: Seq<char>, v: AuditView) -> Seq<char> {
    "["@ + display_time(ts) + "] "@ + mark(v.success) + " "@
        + event_label(v.event) + " from "@ + or_dash(v.remote) + " path="@ + or_dash(v.path)
        + size_part(v.size) + message_part(v.message)
}

/// ` size=N` for a byte count, nothing without one.
pub open spec fn size_part(size: Option<u64>) -> Seq<char> {
    match size {
        Some(n) => " size="@ + decimal(n as nat),
        None => Seq::empty(),
    }
}

/// ` (message)` for a message, nothing without one.
pub open spec fn message_part(message: Option<Seq<char>>) -> Seq<char> {
    match message {
        Some(m) => " ("@ + m + ")"@,
        None => Seq::empty(),
    }
}

/// The success mark of a line.
pub open spec fn mark(success: bool) -> Seq<char> {
    seq![if success { '\u{2713}' } else { '\u{2717}' }]
}

fn digit(d: u64) -> (r: char)
    requires
        d < 10,
    ensures
        r == digit_char(d as nat),
{
    if d == 0 { '0' } else if d == 1 { '1' } else if d == 2 { '2' } else if d == 3 { '3' }
    else if d == 4 { '4' } else if d == 5 { '5' } else if d == 6 { '6' } else if d == 7 { '7' }
    else if d == 8 { '8' } else { '9' }
}

/// Appends `n` in decimal.
fn push_decimal(s: &mut String, n: u64)
    ensures
        final(s)@ == old(s)@ + decimal(n as nat),
    decreases n,
{
    if n >= 10 {
        push_decimal(s, n / 10);
    }
    push_char(s, digit(n % 10));
    if n >= 10 {
        assert(decimal(n as nat) == decimal((n / 10) as nat).push(digit_char((n % 10) as nat)));
    } else {
        assert(decimal(n as nat) == seq![digit_char(n as nat)]);
    }
    assert(final(s)@ =~= old(s)@ + decimal(n as nat));
}

/// Appends `o`, or `-` for none.
fn push_or_dash(s: &mut String, o: &Option<String>)
    ensures
        final(s)@ == old(s)@ + or_dash(opt_view(*o)),
{
    match o {
        Some(t) => s.append(t.as_str()),
        None => s.append("-"),
    }
}

/// Appends a time stamp as `display_time` shows it.
fn push_time(s: &mut String, ts: &str)
    ensures
        final(s)@ == old(s)@ + display_time(ts@),
{
    if ts.unicode_len() >= 19 {
        let ghost start = s@;
        s.append(ts.substring_char(0, 10));
        push_char(s, ' ');
        s.append(ts.substring_char(11, 19));
        assert(s@ =~= start + (ts@.subrange(0, 10) + seq![' '] + ts@.subrange(11, 19)));
    } else {
        s.append(ts);
    }
}

/// Appends the success mark.
fn push_mark(s: &mut String, success: bool)
    ensures
        final(s)@ == old(s)@ + mark(success),
{
    let ghost start = s@;
    push_char(s, if success { '\u{2713}' } else { '\u{2717}' });
    assert(s@ =~= start + mark(success));
}

/// Appends ` size=N` when there is a byte count.
fn push_size(s: &mut String, size: Option<u64>)
    ensures
        final(s)@ == old(s)@ + size_part(size),
{
    let ghost start = s@;
    match size {
        Some(n) => {
            s.append(" size=");
            push_decimal(s, n);
            assert(s@ =~= start + (" size="@ + decimal(n as nat)));
        },
        None => {
            assert(s@ =~= start + Seq::<char>::empty());
        },
    }
}

/// Appends ` (message)` when there is a message.
fn push_message(s: &mut String, message: &Option<String>)
    ensures
        final(s)@ == old(s)@ + message_part(opt_view(*message)),
{
    let ghost start = s@;
    match message {
        Some(m) => {
            s.append(" (");
            s.append(m.as_str());
            s.append(")");
            assert(s@ =~= start + (" ("@ + m@ + ")"@));
        },
        None => {
            assert(s@ =~= start + Seq::<char>::empty());
        },
    }
}

impl AuditEvent {
    /// The event's Rust-style name.
    pub fn label(&self) -> (r: &'static str)
        ensures
            r@ == event_label(*self),
    {
        match self {
            AuditEvent::ServerStart => "ServerStart",
            AuditEvent::ServerStop => "ServerStop",
            AuditEvent::Connect => "Connect",
            AuditEvent::Disconnect => "Disconnect",
            AuditEvent::FileReceived => "FileReceived",
            AuditEvent::FileRejected => "FileRejected",
            AuditEvent::ListRequest => "ListRequest",
            AuditEvent::StatusRequest => "StatusRequest",
            AuditEvent::FileRequest => "FileRequest",
            AuditEvent::Error => "Error",
        }
    }

    /// The event's name as the audit file spells it.
    pub fn name(&self) -> (r: &'static str)
        ensures
            r@ == event_name(*self),
    {
        match self {
            AuditEvent::ServerStart => "server_start",
            AuditEvent::ServerStop => "server_stop",
            AuditEvent::Connect => "connect",
            AuditEvent::Disconnect => "disconnect",
            AuditEvent::FileReceived => "file_received",
            AuditEvent::FileRejected => "file_rejected",
            AuditEvent::ListRequest => "list_request",
            AuditEvent::StatusRequest => "status_request",
            AuditEvent::FileRequest => "file_request",
            AuditEvent::Error => "error",
        }
    }
}

impl AuditEntry {
    /// A record of `event` stamped with `timestamp`, the local time of the
    /// event in RFC 3339 form.
    pub fn new(event: AuditEvent, timestamp: &str) -> (r: AuditEntry)
        ensures
            r@ == fresh(event),
            r.timestamp@ == timestamp@,
    {
        AuditEntry {
            timestamp: owned(timestamp),
            event,
            remote: None,
            path: None,
            size: None,
            success: true,
            message: None,
        }
    }

    /// The record as one human-readable line.
    pub fn summary_line(&self) -> (r: String)
        ensures
            r@ == summary_of(self.timestamp@, self@),
    {
        let mut out = owned("[");
        push_time(&mut out, self.timestamp.as_str());
        out.append("] ");
        push_mark(&mut out, self.success);
        out.append(" ");
        out.append(self.event.label());
        out.append(" from ");
        push_or_dash(&mut out, &self.remote);
        out.append(" path=");
        push_or_dash(&mut out, &self.path);
        push_size(&mut out, self.size);
        push_message(&mut out, &self.message);
        out
    }

    /// The same record, naming the peer's address.
    pub fn with_remote(self, addr: &str) -> (r: AuditEntry)
        ensures
            r@ == (AuditView { remote: Some(addr@), ..self@ }),
            r.timestamp == self.timestamp,
    {
        AuditEntry { remote: Some(owned(addr)), ..self }
    }

    /// The same record, naming the path concerned.
    pub fn with_path(self, path: &str) -> (r: AuditEntry)
        ensures
            r@ == (AuditView { path: Some(path@), ..self@ }),
            r.timestamp == self.timestamp,
    {
        AuditEntry { path: Some(owned(path)), ..self }
    }

    /// The same record, with a byte count.
    pub fn with_size(self, size: u64) -> (r: AuditEntry)
        ensures
            r@ == (AuditView { size: Some(size), ..self@ }),
            r.timestamp == self.timestamp,
    {
        AuditEntry { size: Some(size), ..self }
    }

    /// The same record, marked as a success or a failure.
    pub fn with_success(self, success: bool) -> (r: AuditEntry)
        ensures
            r@ == (AuditView { success, ..self@ }),
            r.timestamp == self.timestamp,
    {
        AuditEntry { success, ..self }
    }

    /// The same record, with a free-form message.
    pub fn with_message(self, msg: &str) -> (r: AuditEntry)
        ensures
            r@ == (AuditView { message: Some(msg@), ..self@ }),
            r.timestamp == self.timestamp,
    {
        AuditEntry { message: Some(owned(msg)), ..self }
    }
}

} // verus!
