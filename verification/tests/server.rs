use mikupush::client::{HealthCheckError, HealthCheckStatus};
use mikupush::server::{
    connect_after_health_check, enrich_server_metadata, initial_current_server, CREATE_SERVER_ERROR_KEY, icon_extension, parse_server_id, readable_servers, CreateServer,
    Server, ServerModel, ServerSelectError,
};
use mikupush::zip::{directory_requires_zip64, file_requires_zip64, zip_entry_name, ZipDirectoryResult};

#[test]
fn servers_from_urls_are_named_after_their_host() {
    let server = Server::new_from_url("https://push.example:8443/base".to_string()).unwrap();
    assert_eq!("push.example", server.name);
    assert_eq!("https://push.example:8443/base", server.url);
    assert!(server.icon.is_none() && server.alias.is_none());
    assert!(!server.connected && !server.healthy && !server.testing && !server.use_alias);
    assert_eq!(36, server.id.len());

    let no_host = Server::new_from_url("mailto:miku@example.com".to_string()).unwrap();
    assert_eq!("", no_host.name);

    assert!(Server::new_from_url("not a url".to_string()).is_err());

    let test = Server::test();
    assert_eq!("http://localhost:8080", test.url);
    assert_eq!("Test Server", test.name);
    let default = Server::default();
    assert_eq!("", default.url);
}

#[test]
fn created_servers_keep_a_trimmed_alias() {
    let server = CreateServer {
        use_alias: true,
        alias: Some("  Home box  ".to_string()),
        url: "http://192.168.1.2:8080".to_string(),
    }
    .into_server()
    .unwrap();
    assert_eq!(Some("Home box".to_string()), server.alias);
    assert!(server.use_alias);
    assert_eq!("192.168.1.2", server.name);

    let blank = CreateServer { use_alias: true, alias: Some("   ".to_string()), url: "http://a.b".to_string() }
        .into_server()
        .unwrap();
    assert_eq!(None, blank.alias);
    assert!(!blank.use_alias);

    let unused = CreateServer { use_alias: false, alias: Some("x".to_string()), url: "http://a.b".to_string() }
        .into_server()
        .unwrap();
    assert_eq!(Some("x".to_string()), unused.alias);
    assert!(!unused.use_alias);

    assert!(CreateServer { use_alias: false, alias: None, url: "::".to_string() }.into_server().is_err());
}

#[test]
fn enriched_servers_keep_what_is_missing() {
    let server = Server::new_added_at("id".to_string(), "http://a".to_string(), "a".to_string(), 5);
    let named = enrich_server_metadata(server.clone(), Some("Miku".to_string()), None);
    assert_eq!("Miku", named.name);
    assert_eq!(None, named.icon);
    let iconed = enrich_server_metadata(named, None, Some("id.png".to_string()));
    assert_eq!("Miku", iconed.name);
    assert_eq!(Some("id.png".to_string()), iconed.icon);
    assert_eq!(5, iconed.added_at);
}

#[test]
fn icon_extensions_by_content_type() {
    assert_eq!(Some(".png"), icon_extension(Some("image/png")));
    assert_eq!(Some(".jpg"), icon_extension(Some("image/jpeg; charset=binary")));
    assert_eq!(Some(".webp"), icon_extension(Some("image/webp")));
    assert_eq!(Some(".gif"), icon_extension(Some("image/gif")));
    assert_eq!(Some(".svg"), icon_extension(Some("image/svg+xml")));
    assert_eq!(None, icon_extension(Some("image/bmp")));
    assert_eq!(None, icon_extension(Some("IMAGE/PNG")));
    assert_eq!(None, icon_extension(None));
}

#[test]
fn zip_entry_names_join_components() {
    let parts = vec![Some("folder".to_string()), Some("nested".to_string()), Some("inner.txt".to_string())];
    assert_eq!("folder/nested/inner.txt", zip_entry_name(&parts));
    let with_gap = vec![None, Some("folder".to_string()), None, Some("file.txt".to_string())];
    assert_eq!("folder/file.txt", zip_entry_name(&with_gap));
    assert_eq!("", zip_entry_name(&vec![]));
    let result = ZipDirectoryResult { path: "/tmp/a.zip".to_string(), size: 22 };
    assert_eq!(22, result.size);
}

#[test]
fn directory_requires_zip64_should_detect_large_directories() {
    // the directory itself, then one file one byte past the ZIP64 threshold
    assert!(directory_requires_zip64(&vec![0, 4294967295 + 1]));
}

#[test]
fn directory_requires_zip64_counts_entry_overhead() {
    assert!(!directory_requires_zip64(&vec![0, 5, 12]));
    assert!(directory_requires_zip64(&vec![0, 4294967295 - 512]));
    assert!(!directory_requires_zip64(&vec![0, 4294967295 - 513]));
    assert!(directory_requires_zip64(&vec![u64::MAX, u64::MAX]));
}

#[test]
fn file_requires_zip64_at_the_threshold_or_when_forced() {
    assert!(!file_requires_zip64(false, 4294967295 - 1));
    assert!(file_requires_zip64(false, 4294967295));
    assert!(file_requires_zip64(true, 0));
}

fn stored_server(id: &str) -> ServerModel {
    ServerModel {
        id: id.to_string(),
        url: "https://push.example".to_string(),
        name: "push".to_string(),
        icon: Some("icon.png".to_string()),
        alias: Some("home".to_string()),
        added_at: 77,
        testing: false,
        connected: true,
        healthy: true,
    }
}

#[test]
fn stored_server_reads_back_unchanged() {
    let id = "9b8e6f2a-1c3d-4e5f-8a9b-0c1d2e3f4a5b";
    let server = stored_server(id).to_server().unwrap();
    assert_eq!(id, server.id);
    assert!(!server.use_alias);
    assert_eq!(None, server.connected_at);
    assert!(server.connected && server.healthy && !server.testing);
    let model = server.clone().to_model();
    assert_eq!(id, model.id);
    assert_eq!(Some("home".to_string()), model.alias);
    assert_eq!(77, model.added_at);
    let back = model.to_server().unwrap();
    assert_eq!(server.id, back.id);
    assert_eq!(server.icon, back.icon);
    assert_eq!(server.name, back.name);
}

#[test]
fn unreadable_stored_servers_are_skipped() {
    let uppercase = "9B8E6F2A-1C3D-4E5F-8A9B-0C1D2E3F4A5B";
    let rows = vec![stored_server("nope"), stored_server(uppercase)];
    let servers = readable_servers(&rows);
    assert_eq!(1, servers.len());
    assert_eq!("9b8e6f2a-1c3d-4e5f-8a9b-0c1d2e3f4a5b", servers[0].id);
    match stored_server("nope").to_server() {
        Err(mikupush::errors::DbError::MapError { .. }) => {}
        _ => panic!("a broken id must not read back"),
    }
}

#[test]
fn adding_entries_keeps_zip64_needed() {
    let base = vec![0, 4294967295 - 512];
    assert!(directory_requires_zip64(&base));
    assert!(directory_requires_zip64(&vec![0, 7, 4294967295 - 512]));
    assert!(directory_requires_zip64(&vec![0, 4294967295 - 512, 0, 0]));
}

#[test]
fn server_ids_must_be_uuids() {
    assert_eq!(
        Ok("9b8e6f2a-1c3d-4e5f-8a9b-0c1d2e3f4a5b".to_string()),
        parse_server_id("9B8E6F2A-1C3D-4E5F-8A9B-0C1D2E3F4A5B")
    );
    assert_eq!(Err(ServerSelectError::InvalidId), parse_server_id("server-1"));
    assert_eq!("errors.server.invalid_server_id", ServerSelectError::InvalidId.message_key());
}

#[test]
fn only_a_server_that_is_up_gets_connected() {
    let server = Server::new_added_at("id".to_string(), "http://a".to_string(), "a".to_string(), 5);
    assert_eq!(
        Some(ServerSelectError::NotFound),
        connect_after_health_check(None, Ok(HealthCheckStatus::Up), 9).err()
    );
    assert_eq!(
        Some(ServerSelectError::HealthCheck),
        connect_after_health_check(
            Some(server.clone()),
            Err(HealthCheckError { message: "timeout".to_string() }),
            9
        )
        .err()
    );
    assert_eq!(
        Some(ServerSelectError::HealthCheckDown),
        connect_after_health_check(Some(server.clone()), Ok(HealthCheckStatus::Down), 9).err()
    );
    let connected = connect_after_health_check(Some(server), Ok(HealthCheckStatus::Up), 9).unwrap();
    assert!(connected.connected && connected.healthy);
    assert_eq!(Some(9), connected.connected_at);
    assert_eq!("http://a", connected.url);
    assert_eq!("errors.server.health_check_down", ServerSelectError::HealthCheckDown.message_key());
}

#[test]
fn fresh_servers_read_back_from_their_stored_form() {
    let server = Server::test();
    let back = server.clone().to_model().to_server().unwrap();
    assert_eq!(server.id, back.id);
}

#[test]
fn bad_server_urls_give_the_create_server_message() {
    let result = CreateServer { use_alias: false, alias: None, url: "::".to_string() }.into_server();
    assert_eq!(Some(CREATE_SERVER_ERROR_KEY.to_string()), result.err());
    assert_eq!("errors.server.create_server", CREATE_SERVER_ERROR_KEY);
}

#[test]
fn the_connected_server_else_the_first_is_current() {
    let a = Server::new_added_at("a".to_string(), "http://a".to_string(), "a".to_string(), 1);
    let b = Server::new_added_at("b".to_string(), "http://b".to_string(), "b".to_string(), 2);
    let current = initial_current_server(Some(b.clone()), Ok(vec![a.clone()])).unwrap();
    assert_eq!("b", current.id);
    let current = initial_current_server(None, Ok(vec![a.clone(), b.clone()])).unwrap();
    assert_eq!("a", current.id);
    assert!(initial_current_server(None, Ok(vec![])).is_none());
    assert!(initial_current_server(None, Err("locked".to_string())).is_none());
}
