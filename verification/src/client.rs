//! Configuration of the HTTP client.

use vstd::prelude::*;

verus! {

/// HTTP version preference of a client connection.
#[derive(Debug, Clone, Copy, PartialEq, Eq, Structural)]
pub enum HttpVersion {
    Http1,
    Http2,
}

/// The `Duration` of `secs` whole seconds.
pub uninterp spec fn duration_of_secs(secs: u64) -> core::time::Duration;

/// Calls `std::time::Duration::from_secs`; the result is a function of the
/// number of seconds alone.
#[verifier::external_body]
fn duration_from_secs(secs: u64) -> (d: core::time::Duration)
    ensures
        d == duration_of_secs(secs),
{
    core::time::Duration::from_secs(secs)
}

/// Configuration for the HTTP client.
pub struct ClientConfig {
    /// Receive buffer size for TCP connections (bytes).
    pub rx_buffer_size: usize,
    /// Transmit buffer size for TCP connections (bytes).
    pub tx_buffer_size: usize,
    /// HTTP version preference.
    pub http_version: HttpVersion,
    /// Connection timeout (not yet enforced; reserved for future use).
    pub connect_timeout: core::time::Duration,
}

impl Default for ClientConfig {
    /// 16 KiB receive and transmit buffers, HTTP/1, a 5 second connect
    /// timeout.
    fn default() -> (r: Self)
        ensures
            r.rx_buffer_size == 16384,
            r.tx_buffer_size == 16384,
            r.http_version == HttpVersion::Http1,
            r.connect_timeout == duration_of_secs(5),
    {
        ClientConfig {
            rx_buffer_size: 16384,
            tx_buffer_size: 16384,
            http_version: HttpVersion::Http1,
            connect_timeout: duration_from_secs(5),
        }
    }
}

} // verus!
