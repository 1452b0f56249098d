//! What is negotiated once, when a session is set up.
use vstd::prelude::*;

verus! {

/// Capabilities that the server announced in its handshake.
#[derive(Debug, Clone, Copy, PartialEq, Eq)]
pub struct Extensions {
    /// The server answers a limits request.
    pub limits: bool,
}

/// Sizes that the server accepts; zero where it sets no limit.
#[derive(Debug, Clone, Copy, PartialEq, Eq)]
pub struct Limits {
    pub packet_len: u64,
    pub read_len: u64,
    pub write_len: u64,
    pub open_handles: u64,
}

/// Relies on `OPENSSH_PORTABLE_DEFAULT_DOWNLOAD_BUFLEN` of
/// `openssh_sftp_client_lowlevel`: the download buffer length that
/// openssh-portable uses, 20480 bytes.
#[verifier::external_body]
fn default_download_buflen() -> (r: u64)
    ensures
        r == 20480,
{
    openssh_sftp_client_lowlevel::OPENSSH_PORTABLE_DEFAULT_DOWNLOAD_BUFLEN as u64
}

/// Relies on `OPENSSH_PORTABLE_DEFAULT_UPLOAD_BUFLEN` of
/// `openssh_sftp_client_lowlevel`: the upload buffer length that
/// openssh-portable uses, 20480 bytes.
#[verifier::external_body]
fn default_upload_buflen() -> (r: u64)
    ensures
        r == 20480,
{
    openssh_sftp_client_lowlevel::OPENSSH_PORTABLE_DEFAULT_UPLOAD_BUFLEN as u64
}

/// The limits taken when the server does not announce any.
pub open spec fn fallback_limits() -> Limits {
    Limits { packet_len: 0, read_len: 20480, write_len: 20480, open_handles: 0 }
}

/// The limits of a session, given what the handshake announced and, where
/// the server supports it, its answer to the limits request.
pub open spec fn session_limits(ext: Extensions, reply: Option<Limits>) -> Option<Limits> {
    if ext.limits {
        reply
    } else {
        Some(fallback_limits())
    }
}

/// Whether setting up the session takes a limits request.
pub fn needs_limits_request(ext: &Extensions) -> (r: bool)
    ensures
        r == ext.limits,
{
    ext.limits
}

/// The limits of a session: the server's answer to the limits request
/// when it announced support for one, else the openssh-portable buffer
/// lengths with no packet or handle limit. `None` when an answer was owed
/// and none came.
pub fn negotiated_limits(ext: &Extensions, reply: Option<Limits>) -> (r: Option<Limits>)
    ensures
        r == session_limits(*ext, reply),
{
    if ext.limits {
        reply
    } else {
        Some(
            Limits {
                packet_len: 0,
                read_len: default_download_buflen(),
                write_len: default_upload_buflen(),
                open_handles: 0,
            },
        )
    }
}

} // verus!
