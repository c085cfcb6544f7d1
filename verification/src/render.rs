//! Template renderer: pure functions from a (namespace, target) pair to the
//! text of a proxy virtual-host file and the text of a certificate-request
//! file. No I/O; the output is pinned character for character.

use vstd::prelude::*;

verus! {

/// The proxy template up to the first use of the namespace.
pub open spec fn proxy_seg0() -> Seq<char> {
    "server {\n        listen 443 ssl http2;\n        listen [::]:443 ssl http2;\n\n        server_name "@
}

/// Between the `server_name` line and the certificate path.
pub open spec fn proxy_seg1() -> Seq<char> {
    ";\n\n        ssl_certificate /var/lib/acme-redirect/live/"@
}

/// Between the certificate path and the key path.
pub open spec fn proxy_seg2() -> Seq<char> {
    "/fullchain;\n        ssl_certificate_key /var/lib/acme-redirect/live/"@
}

/// From the key path down to the trusted-certificate path.
pub open spec fn proxy_seg3() -> Seq<char> {
    "/privkey;\n        ssl_session_timeout 1d;\n        ssl_session_cache shared:MozSSL:10m;  # about 40000 sessions\n        ssl_session_tickets off;\n        \n        ssl_protocols TLSv1.2 TLSv1.3;\n        ssl_ciphers ECDHE-ECDSA-AES128-GCM-SHA256:ECDHE-RSA-AES128-GCM-SHA256:ECDHE-ECDSA-AES256-GCM-SHA384:ECDHE-RSA-AES256-GCM-SHA384:ECDHE-ECDSA-CHACHA20-POLY1305:ECDHE-RSA-CHACHA20-POLY1305:DHE-RSA-AES128-GCM-SHA256:DHE-RSA-AES256-GCM-SHA384;\n        ssl_prefer_server_ciphers off;\n\n        add_header Strict-Transport-Security \"max-age=63072000\" always;\n\n        ssl_stapling on;\n        ssl_stapling_verify on;\n        ssl_trusted_certificate /var/lib/acme-redirect/live/"@
}

/// From the trusted-certificate path down to the forwarding target.
pub open spec fn proxy_seg4() -> Seq<char> {
    "/chain;\n        resolver 127.0.0.1;\n\n\n        location / {\n                proxy_set_header Host $http_host;\n                proxy_set_header X-Real-IP $remote_addr;\n                proxy_set_header X-Forwarded-For $proxy_add_x_forwarded_for;\n                proxy_set_header X-Scheme $scheme;\n                proxy_http_version 1.1;\n                proxy_set_header Upgrade $http_upgrade;\n                proxy_set_header Connection \"Upgrade\";\n                client_max_body_size 0;\n\n                proxy_pass http://"@
}

/// The proxy template after the forwarding target.
pub open spec fn proxy_seg5() -> Seq<char> {
    "/;\n        }\n}"@
}

/// Everything in the proxy text that precedes the forwarding target; it
/// depends on the namespace alone.
pub open spec fn spec_proxy_head(from: Seq<char>) -> Seq<char> {
    proxy_seg0() + from + proxy_seg1() + from + proxy_seg2() + from + proxy_seg3() + from
        + proxy_seg4()
}

/// The full proxy virtual-host text for one (namespace, target) pair.
pub open spec fn spec_nginx_proxy(from: Seq<char>, to: Seq<char>) -> Seq<char> {
    spec_proxy_head(from) + to + proxy_seg5()
}

/// Renders the TLS-terminating virtual-host block that forwards `from` to
/// `to`.
pub fn nginx_proxy_build(from: &str, to: &str) -> (r: String)
    ensures
        r@ == spec_nginx_proxy(from@, to@),
{
    let mut r = String::new();
    r.append(
        "server {\n        listen 443 ssl http2;\n        listen [::]:443 ssl http2;\n\n        server_name ",
    );
    r.append(from);
    r.append(";\n\n        ssl_certificate /var/lib/acme-redirect/live/");
    r.append(from);
    r.append("/fullchain;\n        ssl_certificate_key /var/lib/acme-redirect/live/");
    r.append(from);
    r.append(
        "/privkey;\n        ssl_session_timeout 1d;\n        ssl_session_cache shared:MozSSL:10m;  # about 40000 sessions\n        ssl_session_tickets off;\n        \n        ssl_protocols TLSv1.2 TLSv1.3;\n        ssl_ciphers ECDHE-ECDSA-AES128-GCM-SHA256:ECDHE-RSA-AES128-GCM-SHA256:ECDHE-ECDSA-AES256-GCM-SHA384:ECDHE-RSA-AES256-GCM-SHA384:ECDHE-ECDSA-CHACHA20-POLY1305:ECDHE-RSA-CHACHA20-POLY1305:DHE-RSA-AES128-GCM-SHA256:DHE-RSA-AES256-GCM-SHA384;\n        ssl_prefer_server_ciphers off;\n\n        add_header Strict-Transport-Security \"max-age=63072000\" always;\n\n        ssl_stapling on;\n        ssl_stapling_verify on;\n        ssl_trusted_certificate /var/lib/acme-redirect/live/",
    );
    r.append(from);
    r.append(
        "/chain;\n        resolver 127.0.0.1;\n\n\n        location / {\n                proxy_set_header Host $http_host;\n                proxy_set_header X-Real-IP $remote_addr;\n                proxy_set_header X-Forwarded-For $proxy_add_x_forwarded_for;\n                proxy_set_header X-Scheme $scheme;\n                proxy_http_version 1.1;\n                proxy_set_header Upgrade $http_upgrade;\n                proxy_set_header Connection \"Upgrade\";\n                client_max_body_size 0;\n\n                proxy_pass http://",
    );
    r.append(to);
    r.append("/;\n        }\n}");
    proof {
        assert(r@ =~= spec_nginx_proxy(from@, to@));
    }
    r
}

/// The certificate-request template up to the first use of the namespace.
pub open spec fn acme_seg0() -> Seq<char> {
    "[cert]\nname = \""@
}

/// Between the request name and the DNS name.
pub open spec fn acme_seg1() -> Seq<char> {
    "\"\ndns_names = [\n    \""@
}

/// The certificate-request template after the DNS name.
pub open spec fn acme_seg2() -> Seq<char> {
    "\",\n]\nexec = [\n    \"systemctl reload nginx\",\n]\n"@
}

/// The full certificate-request text for one namespace.
pub open spec fn spec_acme_request(namespace: Seq<char>) -> Seq<char> {
    acme_seg0() + namespace + acme_seg1() + namespace + acme_seg2()
}

/// Renders the certificate-issuance request naming `namespace` as both the
/// request identifier and the sole DNS name, with a post-issuance reload of
/// the web server.
pub fn acme_redirect_config_build(namespace: &str) -> (r: String)
    ensures
        r@ == spec_acme_request(namespace@),
{
    let mut r = String::new();
    r.append("[cert]\nname = \"");
    r.append(namespace);
    r.append("\"\ndns_names = [\n    \"");
    r.append(namespace);
    r.append("\",\n]\nexec = [\n    \"systemctl reload nginx\",\n]\n");
    proof {
        assert(r@ =~= spec_acme_request(namespace@));
    }
    r
}

/// Law: rendering is deterministic. The proxy text is a function of the
/// namespace and target alone, so equal inputs give byte-identical output.
pub proof fn lemma_proxy_render_deterministic(
    s1: Seq<char>,
    t1: Seq<char>,
    s2: Seq<char>,
    t2: Seq<char>,
)
    requires
        s1 == s2,
        t1 == t2,
    ensures
        spec_nginx_proxy(s1, t1) == spec_nginx_proxy(s2, t2),
{
}

/// Law: the forwarding target affects only the text between the fixed head
/// (which depends on the namespace alone, and holds every TLS and
/// certificate-path line) and the fixed tail. Varying the target while
/// holding the namespace fixed leaves head and tail unchanged.
pub proof fn lemma_proxy_target_isolated(s: Seq<char>, t1: Seq<char>, t2: Seq<char>)
    ensures
        spec_nginx_proxy(s, t1) == spec_proxy_head(s) + t1 + proxy_seg5(),
        spec_nginx_proxy(s, t2) == spec_proxy_head(s) + t2 + proxy_seg5(),
        spec_nginx_proxy(s, t1).subrange(0, spec_proxy_head(s).len() as int) == spec_proxy_head(
            s,
        ),
        spec_nginx_proxy(s, t2).subrange(0, spec_proxy_head(s).len() as int) == spec_proxy_head(
            s,
        ),
{
    assert(spec_nginx_proxy(s, t1).subrange(0, spec_proxy_head(s).len() as int) =~= spec_proxy_head(
        s,
    ));
    assert(spec_nginx_proxy(s, t2).subrange(0, spec_proxy_head(s).len() as int) =~= spec_proxy_head(
        s,
    ));
}

} // verus!
