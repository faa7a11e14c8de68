//! The server's decisions for one stream and one connection: which handler a
//! request goes to and on which confined path, what the handler answers, and
//! which audit records the exchange leaves.

use vstd::prelude::*;
use crate::audit::{AuditEntry, AuditEvent, AuditView};
use crate::confine::{confine, confined};
use crate::listing::UsageTally;
use crate::protocol::{FileEntry, Request, Response};
use crate::text::owned;
use crate::transfer::Transfer;

verus! {

/// The handler that serves a request, with every client path already mapped
/// under the root.
#[derive(Debug, Clone, PartialEq, Eq)]
pub enum Handler {
    /// Store `size` bytes at `dest`.
    Put { dest: String, size: u64 },
    /// List the directory `dir`.
    List { dir: String, recursive: bool, long: bool },
    /// Send the file at `file`.
    Get { file: String },
    /// Sum the usage of the tree under the root.
    Status,
}

/// The handler for `req` under `root`.
pub open spec fn handler_for(root: Seq<char>, req: Request) -> HandlerView {
    match req {
        Request::Put { path, size, .. } => HandlerView::Put { dest: confined(root, path@), size },
        Request::List { path, recursive, long } => HandlerView::List {
            dir: confined(root, path@),
            recursive,
            long,
        },
        Request::Get { path } => HandlerView::Get { file: confined(root, path@) },
        Request::Status => HandlerView::Status,
    }
}

/// A handler as a mathematical value.
pub ghost enum HandlerView {
    Put { dest: Seq<char>, size: u64 },
    List { dir: Seq<char>, recursive: bool, long: bool },
    Get { file: Seq<char> },
    Status,
}

impl View for Handler {
    type V = HandlerView;

    open spec fn view(&self) -> HandlerView {
        match self {
            Handler::Put { dest, size } => HandlerView::Put { dest: dest@, size: *size },
            Handler::List { dir, recursive, long } => HandlerView::List {
                dir: dir@,
                recursive: *recursive,
                long: *long,
            },
            Handler::Get { file } => HandlerView::Get { file: file@ },
            Handler::Status => HandlerView::Status,
        }
    }
}

/// Routes a request to its handler. Paths go through the confinement guard
/// here and nowhere else.
pub fn route(root: &str, req: &Request) -> (r: Handler)
    ensures
        r@ == handler_for(root@, *req),
{
    match req {
        Request::Put { path, size, .. } => Handler::Put { dest: confine(root, path.as_str()), size: *size },
        Request::List { path, recursive, long } => Handler::List {
            dir: confine(root, path.as_str()),
            recursive: *recursive,
            long: *long,
        },
        Request::Get { path } => Handler::Get { file: confine(root, path.as_str()) },
        Request::Status => Handler::Status,
    }
}

/// The audit record that a stream leaves before its handler runs: none for a
/// Put, whose record waits for the outcome.
pub open spec fn audit_before(req: Request, remote: Seq<char>) -> Option<AuditView> {
    match req {
        Request::Put { .. } => None,
        Request::List { path, .. } => Some(
            AuditView {
                event: AuditEvent::ListRequest,
                remote: Some(remote),
                path: Some(path@),
                size: None,
                success: true,
                message: None,
            },
        ),
        Request::Status => Some(
            AuditView {
                event: AuditEvent::StatusRequest,
                remote: Some(remote),
                path: None,
                size: None,
                success: true,
                message: None,
            },
        ),
        Request::Get { path } => Some(
            AuditView {
                event: AuditEvent::FileRequest,
                remote: Some(remote),
                path: Some(path@),
                size: None,
                success: true,
                message: None,
            },
        ),
    }
}

/// The record of a finished Put: the declared size, and whether it worked;
/// the message is `OK`, or the failure's text.
pub open spec fn put_record(
    remote: Seq<char>,
    path: Seq<char>,
    size: u64,
    failure: Option<Seq<char>>,
) -> AuditView {
    AuditView {
        event: AuditEvent::FileReceived,
        remote: Some(remote),
        path: Some(path),
        size: Some(size),
        success: failure is None,
        message: Some(
            match failure {
                Some(m) => m,
                None => "OK"@,
            },
        ),
    }
}

/// Everything the stream of `req` records, in order; `failure` is the Put
/// handler's error text, if it failed.
pub open spec fn stream_records(
    req: Request,
    remote: Seq<char>,
    failure: Option<Seq<char>>,
) -> Seq<AuditView> {
    match req {
        Request::Put { path, size, .. } => seq![put_record(remote, path@, size, failure)],
        _ => seq![audit_before(req, remote)->Some_0],
    }
}

/// A successful upload record.
pub open spec fn is_good_upload(v: AuditView) -> bool {
    v.event == AuditEvent::FileReceived && v.success
}

/// The record a stream leaves before its handler runs, stamped `at`.
pub fn record_before(req: &Request, remote: &str, at: &str) -> (r: Option<AuditEntry>)
    ensures
        r matches Some(e) ==> e.timestamp@ == at@,
        match (r, audit_before(*req, remote@)) {
            (Some(e), Some(v)) => e@ == v,
            (None, None) => true,
            _ => false,
        },
{
    match req {
        Request::Put { .. } => None,
        Request::List { path, .. } => Some(
            AuditEntry::new(AuditEvent::ListRequest, at).with_remote(remote).with_path(path.as_str()),
        ),
        Request::Status => Some(AuditEntry::new(AuditEvent::StatusRequest, at).with_remote(remote)),
        Request::Get { path } => Some(
            AuditEntry::new(AuditEvent::FileRequest, at).with_remote(remote).with_path(path.as_str()),
        ),
    }
}

/// The record of a finished Put, stamped `at`; `failure` is the handler's
/// error text.
pub fn record_put(remote: &str, path: &str, size: u64, failure: Option<&str>, at: &str) -> (r: AuditEntry)
    ensures
        r.timestamp@ == at@,
        r@ == put_record(
            remote@,
            path@,
            size,
            match failure {
                Some(m) => Some(m@),
                None => None,
            },
        ),
{
    let entry = AuditEntry::new(AuditEvent::FileReceived, at).with_remote(remote).with_path(path).with_size(
        size,
    );
    match failure {
        None => entry.with_success(true).with_message("OK"),
        Some(m) => entry.with_success(false).with_message(m),
    }
}

/// How many successful upload records `recs` holds.
pub open spec fn good_uploads(recs: Seq<AuditView>) -> nat {
    recs.filter(|v: AuditView| is_good_upload(v)).len()
}

/// Whether a served stream, given as its request, the peer's address and
/// the Put handler's error text (if it failed), was a successful Put.
pub open spec fn served_put_ok(s: (Request, Seq<char>, Option<Seq<char>>)) -> bool {
    s.0 is Put && s.2 is None
}

/// Everything a run of streams records, stream after stream.
pub open spec fn run_records(streams: Seq<(Request, Seq<char>, Option<Seq<char>>)>) -> Seq<AuditView>
    decreases streams.len(),
{
    if streams.len() == 0 {
        Seq::empty()
    } else {
        run_records(streams.drop_last()) + stream_records(
            streams.last().0,
            streams.last().1,
            streams.last().2,
        )
    }
}

proof fn lemma_stream_good_uploads(req: Request, remote: Seq<char>, failure: Option<Seq<char>>)
    ensures
        good_uploads(stream_records(req, remote, failure)) == if served_put_ok((req, remote, failure)) {
            1nat
        } else {
            0nat
        },
{
    let recs = stream_records(req, remote, failure);
    reveal(Seq::filter);
    assert(recs.len() == 1);
    assert(recs.drop_last() == Seq::<AuditView>::empty());
    assert(Seq::<AuditView>::empty().filter(|v: AuditView| is_good_upload(v)) == Seq::<AuditView>::empty());
}

/// Over any run of streams, the audit trail holds exactly one successful
/// upload record for each Put that succeeded, and no other.
pub proof fn lemma_each_good_put_audited_once(streams: Seq<(Request, Seq<char>, Option<Seq<char>>)>)
    ensures
        good_uploads(run_records(streams)) == streams.filter(
            |s: (Request, Seq<char>, Option<Seq<char>>)| served_put_ok(s),
        ).len(),
    decreases streams.len(),
{
    reveal(Seq::filter);
    if streams.len() == 0 {
    } else {
        let init = streams.drop_last();
        let last = streams.last();
        lemma_each_good_put_audited_once(init);
        lemma_stream_good_uploads(last.0, last.1, last.2);
        Seq::filter_distributes_over_add(
            run_records(init),
            stream_records(last.0, last.1, last.2),
            |v: AuditView| is_good_upload(v),
        );
    }
}

/// The answer that opens a Put, once the destination was prepared: go
/// ahead, or, when preparing it failed, an explicit refusal with the
/// failure's text, sent while no payload byte has moved yet.
pub fn put_opening(failure: Option<&str>) -> (r: Response)
    ensures
        failure is None ==> r == Response::Ready,
        failure matches Some(m) ==> (r matches Response::Error { message } && message@ == m@),
{
    match failure {
        None => Response::Ready,
        Some(m) => Response::Error { message: owned(m) },
    }
}

/// The answer that closes a Put: the bytes actually stored.
pub fn done_response(t: &Transfer) -> (r: Response)
    ensures
        r == (Response::Done { written: t@.moved as u64 }),
{
    Response::Done { written: t.moved() }
}

/// The answer to a Get, from what the path turned out to be: a refusal for
/// anything but a regular file, else the size that follows.
pub fn get_response(is_file: bool, len: u64) -> (r: Response)
    ensures
        !is_file ==> (r matches Response::Error { message } && message@ == "Not a file"@),
        is_file ==> r == (Response::File { size: len }),
{
    if is_file {
        Response::File { size: len }
    } else {
        Response::Error { message: owned("Not a file") }
    }
}

/// The answer to a List.
pub fn list_response(entries: Vec<FileEntry>) -> (r: Response)
    ensures
        r == (Response::List { entries }),
{
    Response::List { entries }
}

/// The answer to a Status, from the tally of the tree.
pub fn status_response(root: &str, tally: &UsageTally) -> (r: Response)
    ensures
        r matches Response::Status { root: rt, total_size, file_count } && rt@ == root@
            && total_size == tally.total_size && file_count == tally.file_count,
{
    Response::Status { root: owned(root), total_size: tally.total_size, file_count: tally.file_count }
}

/// How an attempt to accept the next stream of a connection ended.
#[derive(Debug, Clone, PartialEq, Eq)]
pub enum AcceptOutcome {
    /// A new stream is ready.
    Stream,
    /// The peer closed the connection.
    PeerClosed,
    /// Any other transport failure, with its text.
    Failed { reason: String },
}

/// What a connection does next.
#[derive(Debug, Clone, PartialEq, Eq)]
pub enum ConnectionStep {
    /// Serve the new stream on its own, then accept the next.
    Serve,
    /// Record this and stop serving the connection.
    Finish { record: AuditEntry },
}

/// The record a connection leaves when it is established, stamped `at`.
pub fn record_connect(remote: &str, at: &str) -> (r: AuditEntry)
    ensures
        r.timestamp@ == at@,
        r@ == (AuditView {
            event: AuditEvent::Connect,
            remote: Some(remote@),
            path: None,
            size: None,
            success: true,
            message: None,
        }),
{
    AuditEntry::new(AuditEvent::Connect, at).with_remote(remote)
}

/// The connection's next step after an accept: serve a stream; on the peer
/// closing, stop with a Disconnect record; on any other failure, stop with
/// a failed Error record that carries the failure's text. Records are
/// stamped `at`.
pub fn on_accept(outcome: &AcceptOutcome, remote: &str, at: &str) -> (r: ConnectionStep)
    ensures
        r matches ConnectionStep::Finish { record } ==> record.timestamp@ == at@,
        *outcome == AcceptOutcome::Stream ==> r == ConnectionStep::Serve,
        *outcome == AcceptOutcome::PeerClosed ==> (r matches ConnectionStep::Finish { record }
            && record@ == (AuditView {
            event: AuditEvent::Disconnect,
            remote: Some(remote@),
            path: None,
            size: None,
            success: true,
            message: None,
        })),
        outcome matches AcceptOutcome::Failed { reason } ==> (r matches ConnectionStep::Finish {
            record,
        } && record@ == (AuditView {
            event: AuditEvent::Error,
            remote: Some(remote@),
            path: None,
            size: None,
            success: false,
            message: Some(reason@),
        })),
{
    match outcome {
        AcceptOutcome::Stream => ConnectionStep::Serve,
        AcceptOutcome::PeerClosed => ConnectionStep::Finish {
            record: AuditEntry::new(AuditEvent::Disconnect, at).with_remote(remote),
        },
        AcceptOutcome::Failed { reason } => ConnectionStep::Finish {
            record: AuditEntry::new(AuditEvent::Error, at).with_remote(remote).with_success(false).with_message(
                reason.as_str(),
            ),
        },
    }
}

} // verus!
