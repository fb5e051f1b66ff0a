//! Answers of the web server.

use mayara::web::recordings::{
    check_download, check_file_command, check_get_recording, check_start_recording,
    content_disposition, failed_download, file_command, get_recordable_radars, get_recording,
    opened, playback, sanitize_for_header, stop_recording, total_size, validate_filename, Body,
    FileCommand, PlaybackCommand, RecordableRadar, Reply, Status,
};
use mayara::web::{announce, api_fallback, endpoint_at, endpoints, host_text};

fn error(reply: &Reply) -> (u16, &str) {
    match &reply.body {
        Body::Error(text) => (reply.status.code(), text.as_str()),
        other => panic!("{:?}", other),
    }
}

fn state(reply: &Reply) -> (u16, &str) {
    match &reply.body {
        Body::State(text) => (reply.status.code(), text.as_str()),
        other => panic!("{:?}", other),
    }
}

#[test]
fn filenames_are_checked() {
    for good in ["a", "radar-1.mrr", "a.b.c", "with space", "tail."] {
        assert_eq!(validate_filename(good), Ok(()), "{}", good);
    }
    for bad in ["", "..", "a..b", "a/b", "a\\b", ".hidden", "caf\u{e9}", "/etc", "../x"] {
        assert_eq!(validate_filename(bad), Err("Invalid filename"), "{}", bad);
    }
}

#[test]
fn header_text_is_sanitized() {
    assert_eq!(sanitize_for_header("a\"b\nc\rd"), "a_b_c_d");
    assert_eq!(sanitize_for_header("plain.mrr"), "plain.mrr");
    assert_eq!(sanitize_for_header(""), "");
    assert_eq!(content_disposition("x\".mrr"), "attachment; filename=\"x_.mrr\"");
}

#[test]
fn recording_starts_unless_refused() {
    assert!(check_start_recording(None, None, false, true).is_none());
    assert!(check_start_recording(Some("a"), Some("b"), false, true).is_none());
    let r = check_start_recording(Some(".."), None, true, false).unwrap();
    assert_eq!(error(&r), (400, "Invalid filename"));
    let r = check_start_recording(None, Some("/"), true, false).unwrap();
    assert_eq!(error(&r), (400, "Invalid filename"));
    let r = check_start_recording(None, None, true, false).unwrap();
    assert_eq!(error(&r), (409, "Recording already in progress"));
    let r = check_start_recording(None, None, false, false).unwrap();
    assert_eq!(error(&r), (404, "Radar not found"));

    let r = opened(Ok(()));
    assert_eq!(r.status, Status::Success);
    assert!(matches!(r.body, Body::Content));
    assert_eq!(error(&opened(Err("disk full".to_string()))), (500, "disk full"));
    assert_eq!(state(&stop_recording(true)), (200, "stopped"));
    assert_eq!(error(&stop_recording(false)), (404, "No active recording"));
}

#[test]
fn playback_needs_a_recording() {
    assert_eq!(state(&playback(PlaybackCommand::Play, true)), (200, "playing"));
    assert_eq!(state(&playback(PlaybackCommand::Pause, true)), (200, "paused"));
    assert_eq!(state(&playback(PlaybackCommand::Stop, true)), (200, "stopped"));
    assert!(matches!(playback(PlaybackCommand::Seek, true).body, Body::Done));
    assert!(matches!(playback(PlaybackCommand::Settings, true).body, Body::Content));
    for command in [
        PlaybackCommand::Play,
        PlaybackCommand::Pause,
        PlaybackCommand::Stop,
        PlaybackCommand::Seek,
        PlaybackCommand::Settings,
    ] {
        assert_eq!(error(&playback(command, false)), (404, "No active playback"));
    }
}

#[test]
fn files_are_managed() {
    assert!(check_get_recording("a.mrr").is_none());
    assert_eq!(error(&check_get_recording("a/b").unwrap()), (400, "Invalid filename"));
    assert!(matches!(get_recording(true).body, Body::Content));
    assert_eq!(error(&get_recording(false)), (404, "Recording not found"));

    let rename = FileCommand::RenameRecording { filename: "a", new_name: "b" };
    assert!(check_file_command(rename).is_none());
    let bad = FileCommand::RenameRecording { filename: "a", new_name: ".." };
    assert_eq!(error(&check_file_command(bad).unwrap()), (400, "Invalid filename"));
    let bad = FileCommand::RenameRecording { filename: "", new_name: "b" };
    assert_eq!(error(&check_file_command(bad).unwrap()), (400, "Invalid filename"));
    let bad = FileCommand::DeleteRecording { filename: "" };
    assert!(check_file_command(bad).is_some());
    let bad = FileCommand::DeleteDirectory { name: "x/y" };
    assert!(check_file_command(bad).is_some());

    let create = FileCommand::CreateDirectory { name: "d" };
    assert!(check_file_command(create).is_none());
    assert_eq!(file_command(create, Ok(())).status.code(), 201);
    assert_eq!(file_command(rename, Ok(())).status.code(), 200);
    assert!(matches!(file_command(rename, Ok(())).body, Body::Done));
    assert_eq!(error(&file_command(create, Err("no".to_string()))), (500, "no"));

    assert!(check_download("a", None).is_none());
    assert!(check_download("a", Some("b")).is_none());
    assert_eq!(error(&check_download("..", None).unwrap()), (400, "Invalid filename"));
    assert_eq!(error(&check_download("a", Some("..")).unwrap()), (400, "Invalid filename"));
    assert_eq!(error(&failed_download("gone")), (500, "Failed to open file: gone"));
}

#[test]
fn sizes_are_added_up() {
    assert_eq!(total_size(&[]), Some(0));
    assert_eq!(total_size(&[1, 2, 3]), Some(6));
    assert_eq!(total_size(&[u64::MAX, 0]), Some(u64::MAX));
    assert_eq!(total_size(&[u64::MAX, 1]), None);
}

#[test]
fn playback_radars_are_not_recorded() {
    let radar = |id: &str| RecordableRadar {
        id: id.to_string(),
        name: id.to_string(),
        brand: "Navico".to_string(),
    };
    let list = get_recordable_radars(vec![
        (radar("a"), false),
        (radar("b"), true),
        (radar("c"), false),
    ]);
    let ids: Vec<&str> = list.iter().map(|r| r.id.as_str()).collect();
    assert_eq!(ids, vec!["a", "c"]);
}

#[test]
fn host_comes_from_the_header() {
    assert_eq!(host_text(Some(b"example.org:80")), "example.org:80");
    assert_eq!(host_text(Some(b"a\tb")), "a\tb");
    assert_eq!(host_text(Some(b"caf\xc3\xa9")), "localhost");
    assert_eq!(host_text(None), "localhost");
    assert_eq!(announce(Some("boat".to_string()), 6502), "boat:6502");
    assert_eq!(announce(None, 80), "localhost:80");
}

#[test]
fn endpoints_are_on_the_named_host() {
    let e = endpoints(Some(b"boat.local:8080"), 6502, false, "/api", "/stream");
    assert_eq!(e.version, "v2");
    assert_eq!(e.http, "http://boat.local:6502/api");
    assert_eq!(e.ws, "ws://boat.local:6502/stream");
    let e = endpoints(Some(b"[::1]:8080"), 1, true, "/api", "/stream");
    assert_eq!(e.http, "https://[::1]:1/api");
    assert_eq!(e.ws, "wss://[::1]:1/stream");
    let e = endpoints(Some(b"not a host"), 1, false, "/api", "/stream");
    assert_eq!(e.http, "http://localhost:1/api");
    let e = endpoints(Some(b"/path"), 1, false, "/api", "/stream");
    assert_eq!(e.http, "http://localhost:1/api");
    let e = endpoint_at("h:1", true, "/a", "/b");
    assert_eq!((e.http.as_str(), e.ws.as_str()), ("https://h:1/a", "wss://h:1/b"));
}

#[test]
fn fallback_lists_the_endpoints() {
    let list = vec!["/a".to_string(), "/b".to_string()];
    assert_eq!(
        api_fallback("/x", &list),
        "No route matches '/x'. Valid API endpoints:\n  /a\n  /b\n"
    );
    assert_eq!(
        api_fallback("/x", &[]),
        "No route matches '/x'. Valid API endpoints:\n  \n"
    );
}
