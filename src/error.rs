use vstd::prelude::*;

verus! {

/// The kind of a failure of the byte channel or of the framing on it.
#[derive(Clone, Copy, Debug, PartialEq, Eq, Structural)]
pub enum FailureKind {
    /// The channel failed: refused, reset, closed mid-frame, handshake failed.
    Io,
    /// A connect or a reply wait ran past its limit.
    Timeout,
    /// A frame could not be serialised or parsed.
    Codec,
    /// The operation is not available on this transport.
    Unsupported,
    /// A configured value cannot be used (a host that is no DNS name).
    InvalidInput,
}

/// Whether a failure of this kind, seen on an established transport, means
/// that the transport can no longer be used.
pub open spec fn kind_is_fatal(kind: FailureKind) -> bool {
    kind == FailureKind::Io || kind == FailureKind::Codec
}

impl FailureKind {
    /// True for the kinds after which frame boundaries or the channel itself
    /// cannot be trusted.
    pub fn is_fatal(&self) -> (r: bool)
        ensures
            r == kind_is_fatal(*self),
    {
        match self {
            FailureKind::Io => true,
            FailureKind::Codec => true,
            _ => false,
        }
    }
}

/// The error type of the client.
#[derive(Clone, Debug)]
pub enum RiemannClientError {
    /// A failure of the transport, of the given kind, with a message.
    IoError(FailureKind, String),
    /// The server answered with `ok` unset or false; carries its `error` text.
    RiemannError(String),
}

/// The failure kind of a transport error; `None` for a protocol error.
pub open spec fn failure_kind(e: RiemannClientError) -> Option<FailureKind> {
    match e {
        RiemannClientError::IoError(k, _) => Some(k),
        RiemannClientError::RiemannError(_) => None,
    }
}

/// The human-readable text of an error.
pub open spec fn error_text(e: RiemannClientError) -> Seq<char> {
    match e {
        RiemannClientError::IoError(_, m) => "IO error: "@ + m@,
        RiemannClientError::RiemannError(m) => "Riemann error: "@ + m@,
    }
}

impl RiemannClientError {
    /// The error as text: `IO error: ` or `Riemann error: `, then its message.
    pub fn describe(&self) -> (r: String)
        ensures
            r@ == error_text(*self),
    {
        match self {
            RiemannClientError::IoError(_, m) => {
                let mut s = "IO error: ".to_owned();
                s.append(m.as_str());
                s
            },
            RiemannClientError::RiemannError(m) => {
                let mut s = "Riemann error: ".to_owned();
                s.append(m.as_str());
                s
            },
        }
    }

    /// The failure kind of a transport error; `None` for a protocol error.
    pub fn kind(&self) -> (r: Option<FailureKind>)
        ensures
            r == failure_kind(*self),
    {
        match self {
            RiemannClientError::IoError(k, _) => Some(*k),
            RiemannClientError::RiemannError(_) => None,
        }
    }
}

} // verus!
