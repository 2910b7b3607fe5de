use mikupush::deep_link::{decode_shared_path, shared_request_file, shared_request_paths};
use mikupush::server::{append_icon_chunk, icon_file_name, icon_response, IconResponse, Server};
use mikupush::state::UploadsState;
use mikupush::upload::{Progress, UploadRequest};
use mikupush::worker::{record_progress, NIL_UPLOAD_ID};

#[test]
fn share_links_name_their_request_file() {
    assert_eq!(Some("paths-123.json".to_string()), shared_request_file("/share/paths-123.json"));
    assert_eq!(Some("/share".to_string()), shared_request_file("/share"));
    assert_eq!(None, shared_request_file("/open/x"));
    assert_eq!(None, shared_request_file(""));
}

#[test]
fn shared_paths_are_percent_decoded() {
    assert_eq!("/Users/miku/My File.txt", decode_shared_path("/Users/miku/My%20File.txt".to_string()));
    assert_eq!("/plain/path", decode_shared_path("/plain/path".to_string()));
    assert_eq!("/bad/%FF", decode_shared_path("/bad/%FF".to_string()));
}

#[test]
fn icon_responses() {
    assert_eq!(IconResponse::Absent, icon_response(404, Some(10)));
    assert_eq!(IconResponse::Failed, icon_response(500, None));
    assert_eq!(IconResponse::Failed, icon_response(302, None));
    assert_eq!(IconResponse::TooLarge, icon_response(200, Some(2097153)));
    assert_eq!(IconResponse::Download, icon_response(200, Some(2097152)));
    assert_eq!(IconResponse::Download, icon_response(204, None));
}

#[test]
fn icon_chunks_stop_at_the_limit() {
    let mut bytes = vec![1u8; 2097150];
    assert!(append_icon_chunk(&mut bytes, &[2, 3]));
    assert_eq!(2097152, bytes.len());
    assert!(!append_icon_chunk(&mut bytes, &[4]));
    assert_eq!(2097152, bytes.len());
    assert!(append_icon_chunk(&mut bytes, &[]));
    assert_eq!("abc.png", icon_file_name("abc", ".png"));
}

#[test]
fn connected_servers_are_healthy() {
    let server = Server::new_added_at("id".to_string(), "http://a".to_string(), "a".to_string(), 1);
    let connected = server.mark_connected(77);
    assert!(connected.connected && connected.healthy);
    assert_eq!(Some(77), connected.connected_at);
    assert_eq!("a", connected.name);
}

#[test]
fn progress_reports_reach_their_upload() {
    let server = Server::new_added_at("s".to_string(), "http://a".to_string(), "a".to_string(), 1);
    let mut state = UploadsState::new();
    state.add_request(UploadRequest::new_created_at(
        "u1".to_string(),
        "f".to_string(),
        10,
        "a/b".to_string(),
        "/f".to_string(),
        &server,
        1,
    ));
    let mut report = Progress::new("u1".to_string(), 10);
    report.uploaded_bytes = 4;
    report.rate_bytes = 4;
    assert!(record_progress(&mut state, report));
    assert_eq!(4, state.get_request("u1".to_string()).unwrap().progress.uploaded_bytes);

    assert!(!record_progress(&mut state, Progress::new("u2".to_string(), 10)));
    assert!(!record_progress(&mut state, Progress::new(NIL_UPLOAD_ID.to_string(), 0)));
    assert_eq!(4, state.get_request("u1".to_string()).unwrap().progress.uploaded_bytes);
}

#[test]
fn share_request_files_list_paths() {
    let bytes = br#"["/Users/miku/My%20File.txt", "/tmp/plain.txt"]"#;
    assert_eq!(
        Ok(vec!["/Users/miku/My File.txt".to_string(), "/tmp/plain.txt".to_string()]),
        shared_request_paths(bytes, true)
    );
    assert_eq!(
        Ok(vec!["/Users/miku/My%20File.txt".to_string(), "/tmp/plain.txt".to_string()]),
        shared_request_paths(bytes, false)
    );
    assert_eq!(Ok(Vec::<String>::new()), shared_request_paths(b"[]", true));
    let broken = shared_request_paths(b"{\"paths\": 1}", false).unwrap_err();
    assert!(broken.starts_with("failed to parse share requests paths: "));
    assert!(broken.len() > "failed to parse share requests paths: ".len());
}
