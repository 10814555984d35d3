//! Errors reported by the GRID library.

use vstd::prelude::*;

verus! {

/// What went wrong in parsing a remote, decoding a frame, running an
/// exchange or assembling certificates.
#[derive(Debug, Clone)]
pub enum GridError {
    /// The remote starts with neither `grid!` nor `grid.`.
    UnknownScheme,
    /// The remote holds more than one `:`.
    MultiplePorts,
    /// The text after the `:` is not a decimal number in `0..=65535`.
    InvalidPort,
    /// The resolver returned no IPv4 address for the host.
    LookupFailed,
    /// The host cannot name a TLS peer.
    InvalidServerName,
    /// Fewer bytes than a frame header holds.
    HeaderTooShort { got: usize },
    /// The opcode byte is neither a request nor a response code.
    InvalidOpcode { byte: u8 },
    /// The frame's length is not the header plus the declared sizes.
    SizeMismatch { path_size: u128, metadata_size: u128, got: usize },
    /// The socket could not be connected or bound.
    ConnectFailed(String),
    /// Writing TLS records to the socket failed.
    WriteFailed(String),
    /// Reading TLS records from the socket failed.
    ReadFailed(String),
    /// The TLS session rejected what it received, or could not be set up.
    Tls(String),
    /// More writes or reads in a row would have blocked than the exchange
    /// allows.
    TimedOut,
    /// The peer closed the connection before answering.
    RemoteClosed,
    /// The TLS session had nothing to read.
    NoData,
    /// The driver of an exchange reported an event that does not answer the
    /// action it was given.
    UnexpectedEvent,
    /// The certificate store holds no certificate chain.
    NoCertificates,
    /// A name for a certificate is not ASCII text.
    NonAsciiName,
    /// A certificate could not be generated.
    Certificate(String),
}

} // verus!
