//! Fixed filesystem locations, per deployment profile.
//!
//! The production profile roots everything at the filesystem root; the
//! development profile uses the same layout relative to the working
//! directory. The profile is an explicit runtime value so that the rest of
//! the sequence is independent of how it was chosen.

use vstd::prelude::*;

verus! {

/// Where the fixed paths are rooted.
#[derive(Clone, Copy, PartialEq, Eq, Structural, Debug)]
pub enum Profile {
    Production,
    Development,
}

/// The directory holding the TLS key and certificate.
pub open spec fn spec_ssl_dir(p: Profile) -> Seq<char> {
    match p {
        Profile::Production => "/etc/nginx/certs"@,
        Profile::Development => "etc/nginx/certs"@,
    }
}

/// The directory holding the TLS key and certificate.
pub fn ssl_dir(p: Profile) -> (s: String)
    ensures
        s@ == spec_ssl_dir(p),
{
    match p {
        Profile::Production => String::from_str("/etc/nginx/certs"),
        Profile::Development => String::from_str("etc/nginx/certs"),
    }
}

/// The private-key file inside the certificate directory.
pub open spec fn spec_key_path(p: Profile) -> Seq<char> {
    spec_ssl_dir(p) + "/key.pem"@
}

/// The private-key file inside the certificate directory.
pub fn key_path(p: Profile) -> (s: String)
    ensures
        s@ == spec_key_path(p),
{
    let mut s = ssl_dir(p);
    s.append("/key.pem");
    s
}

/// The certificate file inside the certificate directory.
pub open spec fn spec_cert_path(p: Profile) -> Seq<char> {
    spec_ssl_dir(p) + "/cert.pem"@
}

/// The certificate file inside the certificate directory.
pub fn cert_path(p: Profile) -> (s: String)
    ensures
        s@ == spec_cert_path(p),
{
    let mut s = ssl_dir(p);
    s.append("/cert.pem");
    s
}

/// The directory the rendered configuration is written into.
pub open spec fn spec_config_dir(p: Profile) -> Seq<char> {
    match p {
        Profile::Production => "/etc/nginx/conf.d"@,
        Profile::Development => "etc/nginx/conf.d"@,
    }
}

/// The directory the rendered configuration is written into.
pub fn config_dir(p: Profile) -> (s: String)
    ensures
        s@ == spec_config_dir(p),
{
    match p {
        Profile::Production => String::from_str("/etc/nginx/conf.d"),
        Profile::Development => String::from_str("etc/nginx/conf.d"),
    }
}

/// The rendered configuration file.
pub open spec fn spec_config_path(p: Profile) -> Seq<char> {
    spec_config_dir(p) + "/flecs-webapp.conf"@
}

/// The rendered configuration file.
pub fn config_path(p: Profile) -> (s: String)
    ensures
        s@ == spec_config_path(p),
{
    let mut s = config_dir(p);
    s.append("/flecs-webapp.conf");
    s
}

/// The environment variable that may override the HTTPS port.
pub fn https_port_var() -> (s: &'static str)
    ensures
        s@ == "FLECS_WEBAPP_HTTPS_PORT"@,
{
    "FLECS_WEBAPP_HTTPS_PORT"
}

} // verus!
