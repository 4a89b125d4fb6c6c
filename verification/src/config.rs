//! Rendering of the reverse-proxy configuration.
//!
//! The configuration is a fixed text with a single substitution point: the
//! colon-prefixed HTTPS port, left empty when the resolved port is the
//! default. The static text around the substitution point is the virtual-host
//! boilerplate for the web application.

use vstd::prelude::*;
use crate::port::{spec_port_suffix, spec_colon_port, port_suffix, DEFAULT_HTTPS_PORT};

verus! {

/// The static text before the substitution point: an HTTP listener that
/// redirects every request to the HTTPS origin, up to the port suffix of the
/// redirect target.
pub const CONFIG_HEAD: &'static str = "server {\n    listen 80;\n    listen [::]:80;\n    server_name flecs-webapp.local;\n    return 301 https://$host";

/// The static text after the substitution point: the rest of the redirect
/// target and the TLS virtual host itself.
pub const CONFIG_TAIL: &'static str = "$request_uri;\n}\n\nserver {\n    listen 443 ssl;\n    listen [::]:443 ssl;\n    server_name flecs-webapp.local;\n\n    ssl_certificate /etc/nginx/certs/cert.pem;\n    ssl_certificate_key /etc/nginx/certs/key.pem;\n    ssl_protocols TLSv1.2 TLSv1.3;\n\n    location / {\n        root /usr/share/nginx/html;\n        index index.html;\n        try_files $uri $uri/ /index.html;\n    }\n}\n";

/// The rendered configuration for a resolved port.
pub open spec fn spec_rendered_config(port: u16) -> Seq<char> {
    CONFIG_HEAD@ + spec_port_suffix(port) + CONFIG_TAIL@
}

/// Renders the configuration for a resolved port.
pub fn render_config(port: u16) -> (s: String)
    ensures
        s@ == spec_rendered_config(port),
{
    let mut s = String::from_str(CONFIG_HEAD);
    let suffix = port_suffix(port);
    s.append(suffix.as_str());
    s.append(CONFIG_TAIL);
    proof {
        assert(s@ =~= spec_rendered_config(port));
    }
    s
}

/// Whether `needle` occurs as a contiguous run inside `hay`.
pub open spec fn spec_contains_seq(hay: Seq<char>, needle: Seq<char>) -> bool {
    exists|i: int|
        0 <= i && i + needle.len() <= hay.len() && #[trigger] hay.subrange(
            i,
            i + needle.len() as int,
        ) == needle
}

/// Every non-default port stands, colon-prefixed, in the rendered
/// configuration.
pub proof fn lemma_rendered_config_contains_port(port: u16)
    requires
        port != DEFAULT_HTTPS_PORT,
    ensures
        spec_contains_seq(spec_rendered_config(port), spec_colon_port(port)),
{
    let head = CONFIG_HEAD@;
    let suffix = spec_colon_port(port);
    let rendered = spec_rendered_config(port);
    assert(rendered.subrange(head.len() as int, head.len() + suffix.len() as int) =~= suffix);
}

/// With the default port, the configuration is exactly the static text: the
/// substitution point is left empty.
pub proof fn lemma_rendered_config_default()
    ensures
        spec_rendered_config(DEFAULT_HTTPS_PORT) == CONFIG_HEAD@ + CONFIG_TAIL@,
{
    assert(spec_rendered_config(DEFAULT_HTTPS_PORT) =~= CONFIG_HEAD@ + CONFIG_TAIL@);
}

} // verus!
