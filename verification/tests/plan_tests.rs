use web_distributor::config::Config;
use web_distributor::plan::FsOp;
use web_distributor::plan::acme_backup_moves;
use web_distributor::plan::acme_config_writes;
use web_distributor::plan::acme_rotation_plan;
use web_distributor::plan::generate_webserver_configs;
use web_distributor::plan::join_path;
use web_distributor::render::acme_redirect_config_build;
use web_distributor::render::nginx_proxy_build;
use web_distributor::text::starts_with_str;
use web_distributor::text::str_eq;

fn sample_config() -> Config {
    Config {
        home: "/etc/web-distributor".to_string(),
        acme_redirect_configs: "/etc/acme-redirect.d".to_string(),
        mapping: vec![
            ("a.example.com".to_string(), "127.0.0.1:8080".to_string()),
            ("b.example.com".to_string(), "127.0.0.1:9090".to_string()),
        ],
    }
}

fn empty_config() -> Config {
    Config {
        home: "/etc/web-distributor".to_string(),
        acme_redirect_configs: "/etc/acme-redirect.d".to_string(),
        mapping: Vec::new(),
    }
}

#[test]
fn webserver_plan_rotates_then_writes() {
    let plan = generate_webserver_configs(&sample_config(), "1700000000");
    assert_eq!(plan.len(), 5);
    match &plan[0] {
        FsOp::Rename { from, to, missing_ok } => {
            assert_eq!(from, "/etc/web-distributor/nginx-old");
            assert_eq!(to, "/etc/web-distributor/nginx-old-1700000000");
            assert!(*missing_ok);
        },
        _ => panic!("first step must archive the backup"),
    }
    match &plan[1] {
        FsOp::Rename { from, to, missing_ok } => {
            assert_eq!(from, "/etc/web-distributor/nginx");
            assert_eq!(to, "/etc/web-distributor/nginx-old");
            assert!(*missing_ok);
        },
        _ => panic!("second step must demote the live directory"),
    }
    match &plan[2] {
        FsOp::EnsureDirAll { path } => assert_eq!(path, "/etc/web-distributor/nginx"),
        _ => panic!("third step must re-create the live directory"),
    }
}

#[test]
fn mapping_to_file_correspondence() {
    // Exactly one proxy file and one certificate-request file per mapping
    // entry, under the documented names.
    let config = sample_config();
    let plan = generate_webserver_configs(&config, "123");
    let mut proxy_files: Vec<(String, String)> = Vec::new();
    for op in &plan[3..] {
        match op {
            FsOp::WriteFile { path, content } => {
                proxy_files.push((path.clone(), content.clone()))
            },
            _ => panic!("only writes may follow the rotation"),
        }
    }
    proxy_files.sort();
    assert_eq!(proxy_files.len(), 2);
    assert_eq!(proxy_files[0].0, "/etc/web-distributor/nginx/a.example.com.nginx");
    assert_eq!(proxy_files[0].1, nginx_proxy_build("a.example.com", "127.0.0.1:8080"));
    assert_eq!(proxy_files[1].0, "/etc/web-distributor/nginx/b.example.com.nginx");
    assert_eq!(proxy_files[1].1, nginx_proxy_build("b.example.com", "127.0.0.1:9090"));

    let writes = acme_config_writes(&config);
    let mut cert_files: Vec<(String, String)> = Vec::new();
    for op in &writes {
        match op {
            FsOp::WriteFile { path, content } => {
                cert_files.push((path.clone(), content.clone()))
            },
            _ => panic!("the certificate side only writes here"),
        }
    }
    cert_files.sort();
    assert_eq!(cert_files.len(), 2);
    assert_eq!(cert_files[0].0, "/etc/acme-redirect.d/web-distributor.a.example.com.conf");
    assert_eq!(cert_files[0].1, acme_redirect_config_build("a.example.com"));
    assert_eq!(cert_files[1].0, "/etc/acme-redirect.d/web-distributor.b.example.com.conf");
    assert_eq!(cert_files[1].1, acme_redirect_config_build("b.example.com"));
}

#[test]
fn empty_mapping_still_rotates() {
    // Both rotations are planned even with nothing to write.
    let config = empty_config();
    let plan = generate_webserver_configs(&config, "55");
    assert_eq!(plan.len(), 3);
    assert!(matches!(&plan[0], FsOp::Rename { .. }));
    assert!(matches!(&plan[1], FsOp::Rename { .. }));
    assert!(matches!(&plan[2], FsOp::EnsureDirAll { .. }));
    let acme = acme_rotation_plan(&config, "55");
    assert_eq!(acme.len(), 2);
    assert!(acme_config_writes(&config).is_empty());
}

#[test]
fn acme_rotation_archives_backup_subdirectory() {
    let plan = acme_rotation_plan(&sample_config(), "1700000000");
    assert_eq!(plan.len(), 2);
    match &plan[0] {
        FsOp::Rename { from, to, missing_ok } => {
            assert_eq!(from, "/etc/acme-redirect.d/web-distributor-old");
            assert_eq!(to, "/etc/acme-redirect.d/web-distributor-old-1700000000");
            assert!(*missing_ok);
        },
        _ => panic!("first step must archive the backup subdirectory"),
    }
    match &plan[1] {
        FsOp::EnsureDirAll { path } => {
            assert_eq!(path, "/etc/acme-redirect.d/web-distributor-old")
        },
        _ => panic!("second step must ensure the backup subdirectory"),
    }
}

#[test]
fn selective_move_spares_unrelated_and_backups() {
    // Entries without the system prefix are never moved; entries already
    // under the backup naming convention are not re-archived.
    let entries: Vec<String> = vec![
        "unrelated.conf".to_string(),
        "web-distributor.a.example.com.conf".to_string(),
        "web-distributor-old".to_string(),
        "web-distributor-old-1699999999".to_string(),
        "web-distributor.b.example.com.conf".to_string(),
        "other-tool.conf".to_string(),
    ];
    let moves = acme_backup_moves(&sample_config(), &entries);
    assert_eq!(moves.len(), 2);
    match &moves[0] {
        FsOp::Rename { from, to, missing_ok } => {
            assert_eq!(from, "/etc/acme-redirect.d/web-distributor.a.example.com.conf");
            assert_eq!(
                to,
                "/etc/acme-redirect.d/web-distributor-old/web-distributor.a.example.com.conf"
            );
            assert!(!*missing_ok);
        },
        _ => panic!("a selective move must be a rename"),
    }
    match &moves[1] {
        FsOp::Rename { from, .. } => {
            assert_eq!(from, "/etc/acme-redirect.d/web-distributor.b.example.com.conf");
        },
        _ => panic!("a selective move must be a rename"),
    }
}

#[test]
fn selective_move_of_nothing_moves_nothing() {
    let moves = acme_backup_moves(&sample_config(), &Vec::new());
    assert!(moves.is_empty());
}

#[test]
fn join_path_places_name_in_dir() {
    assert_eq!(join_path("/etc/web-distributor", "nginx"), "/etc/web-distributor/nginx");
}

#[test]
fn string_helpers() {
    assert!(str_eq("web", "web"));
    assert!(!str_eq("web", "wef"));
    assert!(!str_eq("web", "webs"));
    assert!(starts_with_str("web-distributor.a", "web-distributor"));
    assert!(starts_with_str("web", "web"));
    assert!(!starts_with_str("we", "web"));
    assert!(!starts_with_str("wax-distributor", "web"));
}
