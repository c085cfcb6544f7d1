use web_distributor::render::acme_redirect_config_build;
use web_distributor::render::nginx_proxy_build;

fn expected_proxy(from: &str, to: &str) -> String {
    let mut s = String::new();
    s.push_str("server {\n        listen 443 ssl http2;\n        listen [::]:443 ssl http2;\n\n        server_name ");
    s.push_str(from);
    s.push_str(";\n\n        ssl_certificate /var/lib/acme-redirect/live/");
    s.push_str(from);
    s.push_str("/fullchain;\n        ssl_certificate_key /var/lib/acme-redirect/live/");
    s.push_str(from);
    s.push_str("/privkey;\n        ssl_session_timeout 1d;\n        ssl_session_cache shared:MozSSL:10m;  # about 40000 sessions\n        ssl_session_tickets off;\n        \n        ssl_protocols TLSv1.2 TLSv1.3;\n        ssl_ciphers ECDHE-ECDSA-AES128-GCM-SHA256:ECDHE-RSA-AES128-GCM-SHA256:ECDHE-ECDSA-AES256-GCM-SHA384:ECDHE-RSA-AES256-GCM-SHA384:ECDHE-ECDSA-CHACHA20-POLY1305:ECDHE-RSA-CHACHA20-POLY1305:DHE-RSA-AES128-GCM-SHA256:DHE-RSA-AES256-GCM-SHA384;\n        ssl_prefer_server_ciphers off;\n\n        add_header Strict-Transport-Security \"max-age=63072000\" always;\n\n        ssl_stapling on;\n        ssl_stapling_verify on;\n        ssl_trusted_certificate /var/lib/acme-redirect/live/");
    s.push_str(from);
    s.push_str("/chain;\n        resolver 127.0.0.1;\n\n\n        location / {\n                proxy_set_header Host $http_host;\n                proxy_set_header X-Real-IP $remote_addr;\n                proxy_set_header X-Forwarded-For $proxy_add_x_forwarded_for;\n                proxy_set_header X-Scheme $scheme;\n                proxy_http_version 1.1;\n                proxy_set_header Upgrade $http_upgrade;\n                proxy_set_header Connection \"Upgrade\";\n                client_max_body_size 0;\n\n                proxy_pass http://");
    s.push_str(to);
    s.push_str("/;\n        }\n}");
    s
}

#[test]
fn proxy_exact_output() {
    let got = nginx_proxy_build("a.example.com", "127.0.0.1:8080");
    assert_eq!(got, expected_proxy("a.example.com", "127.0.0.1:8080"));
}

#[test]
fn proxy_deterministic() {
    let a = nginx_proxy_build("svc.example.org", "10.0.0.1:3000");
    let b = nginx_proxy_build("svc.example.org", "10.0.0.1:3000");
    assert_eq!(a, b);
}

#[test]
fn proxy_target_changes_only_forwarding() {
    let a = nginx_proxy_build("svc.example.org", "10.0.0.1:3000");
    let b = nginx_proxy_build("svc.example.org", "10.0.0.2:4000");
    let marker = "proxy_pass http://";
    let a_head = &a[..a.find(marker).unwrap() + marker.len()];
    let b_head = &b[..b.find(marker).unwrap() + marker.len()];
    assert_eq!(a_head, b_head);
    let a_tail = &a[a.find(marker).unwrap() + marker.len()..];
    let b_tail = &b[b.find(marker).unwrap() + marker.len()..];
    assert_eq!(a_tail, "10.0.0.1:3000/;\n        }\n}");
    assert_eq!(b_tail, "10.0.0.2:4000/;\n        }\n}");
    assert!(a_head.contains("ssl_certificate /var/lib/acme-redirect/live/svc.example.org/fullchain;"));
}

#[test]
fn acme_exact_output() {
    let got = acme_redirect_config_build("a.example.com");
    let expected = "[cert]\nname = \"a.example.com\"\ndns_names = [\n    \"a.example.com\",\n]\nexec = [\n    \"systemctl reload nginx\",\n]\n";
    assert_eq!(got, expected);
}

#[test]
fn acme_deterministic() {
    let a = acme_redirect_config_build("b.example.com");
    let b = acme_redirect_config_build("b.example.com");
    assert_eq!(a, b);
}
