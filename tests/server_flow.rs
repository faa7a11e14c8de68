use hank_sync::audit::{AuditEntry, AuditEvent};
use hank_sync::dispatch::{
    done_response, get_response, list_response, put_opening, on_accept, record_before, record_connect, record_put, route,
    status_response, AcceptOutcome, ConnectionStep, Handler,
};
use hank_sync::listing::{build_listing, UsageTally, WalkedEntry};
use hank_sync::protocol::{FileEntry, Request, Response};
use hank_sync::transfer::Transfer;

const T: &str = "2024-05-01T10:00:00+02:00";

#[test]
fn route_confines_every_path() {
    let put = Request::Put { path: "../../../tmp/evil".into(), size: 4, hash: None };
    assert_eq!(route("/srv", &put), Handler::Put { dest: "/srv////tmp/evil".into(), size: 4 });
    let list = Request::List { path: "/".into(), recursive: true, long: false };
    assert_eq!(route("/srv", &list), Handler::List { dir: "/srv".into(), recursive: true, long: false });
    let get = Request::Get { path: "/notes.txt".into() };
    assert_eq!(route("/srv", &get), Handler::Get { file: "/srv/notes.txt".into() });
    assert_eq!(route("/srv", &Request::Status), Handler::Status);
}

#[test]
fn audit_before_handler() {
    assert!(record_before(&Request::Put { path: "a".into(), size: 1, hash: None }, "1.2.3.4:5", T).is_none());
    let e = record_before(&Request::Get { path: "/a".into() }, "1.2.3.4:5", T).unwrap();
    assert_eq!(e.event, AuditEvent::FileRequest);
    assert_eq!(e.remote.as_deref(), Some("1.2.3.4:5"));
    assert_eq!(e.path.as_deref(), Some("/a"));
    let e = record_before(&Request::Status, "r", T).unwrap();
    assert_eq!(e.event, AuditEvent::StatusRequest);
    assert_eq!(e.path, None);
    let e = record_before(&Request::List { path: "/d".into(), recursive: false, long: true }, "r", T).unwrap();
    assert_eq!(e.event, AuditEvent::ListRequest);
}

#[test]
fn successful_put_leaves_one_good_record() {
    let e = record_put("10.0.0.1:9000", "notes.txt", 12, None, T);
    assert_eq!(e.event, AuditEvent::FileReceived);
    assert!(e.success);
    assert_eq!(e.size, Some(12));
    assert_eq!(e.message.as_deref(), Some("OK"));
    let records = vec![e];
    assert_eq!(records.iter().filter(|r| r.event == AuditEvent::FileReceived && r.success).count(), 1);
}

#[test]
fn failed_put_is_recorded_as_failure() {
    let e = record_put("r", "x", 5, Some("disk full"), T);
    assert!(!e.success);
    assert_eq!(e.message.as_deref(), Some("disk full"));
}

#[test]
fn get_on_non_file_is_refused() {
    assert_eq!(get_response(false, 0), Response::Error { message: "Not a file".into() });
    assert_eq!(get_response(true, 12), Response::File { size: 12 });
}

#[test]
fn accept_outcomes() {
    assert_eq!(on_accept(&AcceptOutcome::Stream, "r", T), ConnectionStep::Serve);
    match on_accept(&AcceptOutcome::PeerClosed, "r", T) {
        ConnectionStep::Finish { record } => {
            assert_eq!(record.event, AuditEvent::Disconnect);
            assert!(record.success);
        }
        other => panic!("{other:?}"),
    }
    match on_accept(&AcceptOutcome::Failed { reason: "timed out".into() }, "r", T) {
        ConnectionStep::Finish { record } => {
            assert_eq!(record.event, AuditEvent::Error);
            assert!(!record.success);
            assert_eq!(record.message.as_deref(), Some("timed out"));
        }
        other => panic!("{other:?}"),
    }
    let c = record_connect("r", T);
    assert_eq!(c.event, AuditEvent::Connect);
    assert_eq!(c.remote.as_deref(), Some("r"));
}

#[test]
fn audit_builders_fill_fields() {
    let e = AuditEntry::new(AuditEvent::ServerStart, T);
    assert!(e.success && e.remote.is_none() && e.path.is_none() && e.size.is_none() && e.message.is_none());
    assert_eq!(e.timestamp, T);
    let e = e.with_remote("h:1").with_path("p").with_size(3).with_success(false).with_message("m");
    assert_eq!(e.remote.as_deref(), Some("h:1"));
    assert_eq!(e.path.as_deref(), Some("p"));
    assert_eq!(e.size, Some(3));
    assert!(!e.success);
    assert_eq!(e.message.as_deref(), Some("m"));
    assert_eq!(AuditEvent::FileReceived.name(), "file_received");
    assert_eq!(AuditEvent::ServerStop.name(), "server_stop");
}

#[test]
fn put_list_status_get_scenario() {
    let root = "/srv/empty";
    let put = Request::Put { path: "notes.txt".into(), size: 12, hash: None };
    let dest = match route(root, &put) {
        Handler::Put { dest, size } => {
            assert_eq!(size, 12);
            dest
        }
        other => panic!("{other:?}"),
    };
    assert_eq!(dest, "/srv/empty/notes.txt");
    let mut t = Transfer::new(12);
    let body = b"hello world!";
    let n = t.next_request();
    t.record(&body[..n]).unwrap();
    assert_eq!(done_response(&t), Response::Done { written: 12 });

    let walked = vec![
        WalkedEntry { rel_path: "".into(), depth: 0, is_dir: true, size: 0, modified: None },
        WalkedEntry { rel_path: "notes.txt".into(), depth: 1, is_dir: false, size: 12, modified: Some(5) },
    ];
    let listing = list_response(build_listing(&walked, false, false));
    assert_eq!(
        listing,
        Response::List { entries: vec![FileEntry { name: "notes.txt".into(), is_dir: false, size: 12, modified: None }] }
    );

    let mut tally = UsageTally::new();
    for w in &walked {
        tally.add(!w.is_dir, w.size).unwrap();
    }
    assert_eq!(
        status_response(root, &tally),
        Response::Status { root: root.into(), total_size: 12, file_count: 1 }
    );

    assert_eq!(route(root, &Request::Get { path: "/notes.txt".into() }), Handler::Get { file: dest.clone() });
    assert_eq!(get_response(true, 12), Response::File { size: 12 });
    let mut g = Transfer::new(12);
    let mut got = Vec::new();
    while !g.is_finished() {
        let n = g.next_request().min(5);
        let start = got.len();
        g.record(&body[start..start + n]).unwrap();
        got.extend_from_slice(&body[start..start + n]);
    }
    assert_eq!(got, b"hello world!");
}

#[test]
fn put_opening_answers() {
    assert_eq!(put_opening(None), Response::Ready);
    assert_eq!(put_opening(Some("permission denied")), Response::Error { message: "permission denied".into() });
}

#[test]
fn audit_summary_line_full() {
    let e = AuditEntry::new(AuditEvent::FileReceived, "2024-05-01T10:00:00.123+02:00")
        .with_remote("10.0.0.1:9000")
        .with_path("notes.txt")
        .with_size(12)
        .with_success(true)
        .with_message("OK");
    assert_eq!(e.summary_line(), "[2024-05-01 10:00:00] ✓ FileReceived from 10.0.0.1:9000 path=notes.txt size=12 (OK)");
}

#[test]
fn audit_summary_line_bare_and_failed() {
    let e = AuditEntry::new(AuditEvent::Connect, "short");
    assert_eq!(e.summary_line(), "[short] ✓ Connect from - path=-");
    let e = AuditEntry::new(AuditEvent::Error, T).with_success(false).with_size(0).with_size(1234567890);
    assert_eq!(e.summary_line(), "[2024-05-01 10:00:00] ✗ Error from - path=- size=1234567890");
    assert_eq!(AuditEvent::StatusRequest.label(), "StatusRequest");
}

#[test]
fn listing_reports_each_walked_item_once_in_order() {
    let walked = vec![
        WalkedEntry { rel_path: "".into(), depth: 0, is_dir: true, size: 0, modified: None },
        WalkedEntry { rel_path: "b".into(), depth: 1, is_dir: false, size: 2, modified: None },
        WalkedEntry { rel_path: "a".into(), depth: 1, is_dir: false, size: 1, modified: None },
    ];
    let names: Vec<String> = build_listing(&walked, false, false).into_iter().map(|e| e.name).collect();
    assert_eq!(names, vec!["b".to_string(), "a".to_string()]);
}
