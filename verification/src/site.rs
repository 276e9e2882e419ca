//! The names and addresses of a deployed site, and the Nginx server block
//! that routes its public host name to its container.
use crate::text::{append_decimal, append_signed_decimal, decimal, occurs_at, seq_contains, signed_decimal};
use vstd::prelude::*;

verus! {

/// The name shared by a deployment's working directory, image, container and
/// site: the repository name, a dash, and the branch.
pub open spec fn slug_text(repo_name: Seq<char>, branch: Seq<char>) -> Seq<char> {
    repo_name + "-"@ + branch
}

/// Builds the name `<repo>-<branch>`.
pub fn deployment_slug(repo_name: &str, branch: &str) -> (r: String)
    ensures
        r@ == slug_text(repo_name@, branch@),
{
    let mut r = String::from_str(repo_name);
    r.append("-");
    r.append(branch);
    r
}

/// The public address of a site behind the proxy: `http://<site>.localhost`.
pub open spec fn live_url_text(site_name: Seq<char>) -> Seq<char> {
    "http://"@ + site_name + ".localhost"@
}

/// Builds the public address of a site.
pub fn live_url(site_name: &str) -> (r: String)
    ensures
        r@ == live_url_text(site_name@),
{
    let mut r = String::from_str("http://");
    r.append(site_name);
    r.append(".localhost");
    r
}

/// The address of a site served directly on a port: `http://<site>.localhost:<port>`.
pub open spec fn static_site_url_text(site_name: Seq<char>, port: u16) -> Seq<char> {
    "http://"@ + site_name + ".localhost:"@ + decimal(port as nat)
}

/// Builds the address of a site served directly on `port`.
pub fn static_site_url(site_name: &str, port: u16) -> (r: String)
    ensures
        r@ == static_site_url_text(site_name@, port),
{
    let mut r = String::from_str("http://");
    r.append(site_name);
    r.append(".localhost:");
    append_decimal(&mut r, port as u64);
    r
}

/// The file that holds a site's server block: `<site>.conf`.
pub open spec fn conf_file_name_text(site_name: Seq<char>) -> Seq<char> {
    site_name + ".conf"@
}

/// Builds the name of a site's configuration file.
pub fn nginx_conf_file_name(site_name: &str) -> (r: String)
    ensures
        r@ == conf_file_name_text(site_name@),
{
    let mut r = String::from_str(site_name);
    r.append(".conf");
    r
}

/// The `server_name` line of a site's server block: `server_name <site>.localhost;`.
pub open spec fn server_name_line(site_name: Seq<char>) -> Seq<char> {
    "server_name "@ + site_name + ".localhost;"@
}

/// The `proxy_pass` line of a site's server block: `proxy_pass http://<container>:<port>;`.
pub open spec fn proxy_pass_line(container_name: Seq<char>, port: int) -> Seq<char> {
    "proxy_pass http://"@ + container_name + ":"@ + signed_decimal(port) + ";"@
}

/// The server block of a site: it listens on port 80 for `<site>.localhost`
/// and passes every request, WebSocket upgrades included, to
/// `http://<container>:<port>`.
pub open spec fn nginx_config_text(site_name: Seq<char>, container_name: Seq<char>, port: int) -> Seq<char> {
    "\n                server {\n                    listen 80;\n                    "@
        + server_name_line(site_name)
        + "\n\n                    location / {\n                        "@
        + proxy_pass_line(container_name, port)
        + "\n                        proxy_http_version 1.1;\n                        proxy_set_header Upgrade $http_upgrade;\n                        proxy_set_header Connection 'upgrade';\n                        proxy_set_header Host $host;\n                        proxy_set_header X-Real-IP $remote_addr;\n                        proxy_set_header X-Forwarded-For $proxy_add_x_forwarded_for;\n                        proxy_set_header X-Forwarded-Proto $scheme;\n                        proxy_cache_bypass $http_upgrade;\n                    }\n                }\n                "@
}

/// Builds the server block of a site.
pub fn nginx_site_config(site_name: &str, container_name: &str, port: i32) -> (r: String)
    ensures
        r@ == nginx_config_text(site_name@, container_name@, port as int),
{
    let mut r = String::from_str("\n                server {\n                    listen 80;\n                    ");
    r.append("server_name ");
    r.append(site_name);
    r.append(".localhost;");
    r.append("\n\n                    location / {\n                        ");
    r.append("proxy_pass http://");
    r.append(container_name);
    r.append(":");
    append_signed_decimal(&mut r, port);
    r.append(";");
    r.append(
        "\n                        proxy_http_version 1.1;\n                        proxy_set_header Upgrade $http_upgrade;\n                        proxy_set_header Connection 'upgrade';\n                        proxy_set_header Host $host;\n                        proxy_set_header X-Real-IP $remote_addr;\n                        proxy_set_header X-Forwarded-For $proxy_add_x_forwarded_for;\n                        proxy_set_header X-Forwarded-Proto $scheme;\n                        proxy_cache_bypass $http_upgrade;\n                    }\n                }\n                ",
    );
    proof {
        assert(r@ =~= nginx_config_text(site_name@, container_name@, port as int));
    }
    r
}

/// `needle` occurs in `a + needle + b`.
proof fn lemma_occurs_between(a: Seq<char>, needle: Seq<char>, b: Seq<char>)
    ensures
        seq_contains(a + needle + b, needle),
{
    let hay = a + needle + b;
    assert forall|k: int| 0 <= k < needle.len() implies #[trigger] hay[a.len() + k] == needle[k] by {}
    assert(occurs_at(hay, needle, a.len() as int));
}

/// Whatever the site, container and port, the server block answers for the
/// site's host name, `server_name <site>.localhost;`, and proxies to the
/// container on that port, `proxy_pass http://<container>:<port>;`, with the
/// port in decimal.
pub proof fn lemma_server_block_routes_site_to_container(site_name: Seq<char>, container_name: Seq<char>, port: i32)
    ensures
        seq_contains(
            nginx_site_text(site_name, container_name, port),
            "server_name "@ + site_name + ".localhost;"@,
        ),
        seq_contains(
            nginx_site_text(site_name, container_name, port),
            "proxy_pass http://"@ + container_name + ":"@ + signed_decimal(port as int) + ";"@,
        ),
        seq_contains(nginx_site_text(site_name, container_name, port), "listen 80;"@),
{
    let head = "\n                server {\n                    listen 80;\n                    "@;
    let mid = "\n\n                    location / {\n                        "@;
    let tail = "\n                        proxy_http_version 1.1;\n                        proxy_set_header Upgrade $http_upgrade;\n                        proxy_set_header Connection 'upgrade';\n                        proxy_set_header Host $host;\n                        proxy_set_header X-Real-IP $remote_addr;\n                        proxy_set_header X-Forwarded-For $proxy_add_x_forwarded_for;\n                        proxy_set_header X-Forwarded-Proto $scheme;\n                        proxy_cache_bypass $http_upgrade;\n                    }\n                }\n                "@;
    let sn = "server_name "@ + site_name + ".localhost;"@;
    let pp = "proxy_pass http://"@ + container_name + ":"@ + signed_decimal(port as int) + ";"@;
    let text = nginx_site_text(site_name, container_name, port);
    assert(text =~= head + sn + (mid + pp + tail));
    lemma_occurs_between(head, sn, mid + pp + tail);
    assert(text =~= (head + sn + mid) + pp + tail);
    lemma_occurs_between(head + sn + mid, pp, tail);
    reveal_strlit("\n                server {\n                    listen 80;\n                    ");
    reveal_strlit("listen 80;");
    let l = "listen 80;"@;
    let pre = head.subrange(0, 46);
    let post = head.subrange(56, head.len() as int) + sn + mid + pp + tail;
    assert(head.subrange(46, 56) =~= l);
    assert(text =~= pre + l + post);
    lemma_occurs_between(pre, l, post);
}

/// The text of the server block `nginx_site_config` builds.
pub open spec fn nginx_site_text(site_name: Seq<char>, container_name: Seq<char>, port: i32) -> Seq<char> {
    nginx_config_text(site_name, container_name, port as int)
}

/// The name of the container that runs Nginx.
pub fn nginx_container_name() -> (r: String)
    ensures
        r@ == "cicd-nginx"@,
{
    String::from_str("cicd-nginx")
}


/// Different sites have different public addresses.
pub proof fn lemma_live_url_distinguishes_sites(a: Seq<char>, b: Seq<char>)
    ensures
        live_url_text(a) == live_url_text(b) ==> a == b,
{
    if live_url_text(a) == live_url_text(b) {
        let p = "http://"@;
        let q = ".localhost"@;
        let x = live_url_text(a);
        assert(x.len() == p.len() + a.len() + q.len());
        assert(x.len() == p.len() + b.len() + q.len());
        assert(x.subrange(p.len() as int, p.len() + a.len() as int) =~= a);
        assert(x.subrange(p.len() as int, p.len() + b.len() as int) =~= b);
    }
}

/// The site a branch is served under starts with the repository's name, ends
/// with the branch, and the two are joined by a dash.
pub proof fn lemma_slug_parts(repo_name: Seq<char>, branch: Seq<char>)
    ensures
        slug_text(repo_name, branch).len() == repo_name.len() + 1 + branch.len(),
        slug_text(repo_name, branch).subrange(0, repo_name.len() as int) == repo_name,
        slug_text(repo_name, branch)[repo_name.len() as int] == '-',
        slug_text(repo_name, branch).subrange(repo_name.len() + 1int, repo_name.len() + 1int + branch.len())
            == branch,
{
    reveal_strlit("-");
    let s = slug_text(repo_name, branch);
    assert(s.subrange(0, repo_name.len() as int) =~= repo_name);
    assert(s.subrange(repo_name.len() + 1int, repo_name.len() + 1int + branch.len()) =~= branch);
}

} // verus!
