use hank_sync::client::{
    expect_done, expect_file, expect_listing, expect_ready, get_request, list_request, put_request,
    remote_entry_path, remote_file_path, whole_megabytes, ClientError,
};
use hank_sync::config::{config_dir, config_file, resolve_server, Config, ConfigError};
use hank_sync::protocol::{Request, Response};
use hank_sync::trust::{generate_self_signed, server_name, AcceptAnyServer, ServerCertPolicy, Verdict, MAX_CONCURRENT_STREAMS};

#[test]
fn remote_paths() {
    assert_eq!(remote_file_path(Some("backup//"), "a.txt"), "backup/a.txt");
    assert_eq!(remote_file_path(None, "a.txt"), "a.txt");
    assert_eq!(remote_entry_path("dest/photos", "2024\\jan.jpg"), "dest/photos/2024/jan.jpg");
}

#[test]
fn requests_carry_their_fields() {
    assert_eq!(
        put_request("x/y", 9, Some("abc".into())),
        Request::Put { path: "x/y".into(), size: 9, hash: Some("abc".into()) }
    );
    assert_eq!(list_request("/", true, false), Request::List { path: "/".into(), recursive: true, long: false });
    assert_eq!(get_request("/f"), Request::Get { path: "/f".into() });
}

#[test]
fn answers_are_checked() {
    assert_eq!(expect_ready(&Response::Ready), Ok(()));
    assert_eq!(expect_ready(&Response::Done { written: 1 }), Err(ClientError::Rejected));
    assert_eq!(expect_done(&Response::Done { written: 7 }), Ok(7));
    assert_eq!(expect_done(&Response::Ready), Err(ClientError::Unexpected));
    assert_eq!(expect_file(Response::File { size: 3 }), Ok(3));
    assert_eq!(
        expect_file(Response::Error { message: "Not a file".into() }),
        Err(ClientError::Server { message: "Not a file".into() })
    );
    assert_eq!(expect_file(Response::Ready), Err(ClientError::Unexpected));
    assert_eq!(expect_listing(Response::List { entries: vec![] }), Ok(vec![]));
    assert_eq!(expect_listing(Response::Ready), Err(ClientError::Unexpected));
}

#[test]
fn megabytes_round_down() {
    assert_eq!(whole_megabytes(0), 0);
    assert_eq!(whole_megabytes(1_048_575), 0);
    assert_eq!(whole_megabytes(3 * 1_048_576 + 5), 3);
}

#[test]
fn server_resolution() {
    let cfg = Config::default();
    assert_eq!(resolve_server(Some("h:1".into()), None), Ok("h:1".to_string()));
    assert_eq!(resolve_server(None, Some(&cfg)), Ok("192.168.178.20:4433".to_string()));
    assert_eq!(resolve_server(None, None), Err(ConfigError::NotFound));
}

#[test]
fn defaults_and_files() {
    let cfg = Config::default();
    assert_eq!(cfg.server.root, "/backup/incoming");
    assert_eq!(cfg.server.bind, "0.0.0.0:4433");
    assert_eq!(config_file("/etc/hs"), "/etc/hs/config.toml");
    if let Ok(dir) = config_dir() {
        assert!(dir.contains("hank-sync"));
    }
}

#[test]
fn identity_and_policy() {
    assert_eq!(server_name(), "localhost");
    assert_eq!(MAX_CONCURRENT_STREAMS, 100);
    let id = generate_self_signed().unwrap();
    assert_eq!(id.cert_chain.len(), 1);
    assert!(!id.cert_chain[0].is_empty());
    assert!(!id.private_key.is_empty());
    assert_eq!(AcceptAnyServer.verify(&id.cert_chain, "anything"), Verdict::Allow);
}
