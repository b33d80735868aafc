//! What the platforms' deep-link listeners share.

use vstd::prelude::*;
use vstd::string::*;
use crate::text::{has_substring, str_contains};

verus! {

/// The identifier used where the application has set none.
pub open spec fn default_id() -> Seq<char> {
    "nyanpasu"@
}

/// The path of the listener's socket for an application identifier.
pub open spec fn socket_addr(id: Option<Seq<char>>) -> Seq<char> {
    "/tmp/"@ + (match id {
        Some(text) => text,
        None => default_id(),
    }) + "-deep-link.sock"@
}

pub open spec fn id_text(id: Option<&str>) -> Option<Seq<char>> {
    match id {
        Some(text) => Some(text@),
        None => None,
    }
}

/// The socket's path for the identifier the application has set, if any.
pub fn format_socket_addr(id: Option<&str>) -> (addr: String)
    ensures
        addr@ == socket_addr(id_text(id)),
{
    let mut addr = String::from_str("/tmp/");
    match id {
        Some(text) => {
            addr.append(text);
        },
        None => {
            addr.append("nyanpasu");
        },
    }
    addr.append("-deep-link.sock");
    addr
}

/// The kinds of failure a socket error is reported as.
#[derive(Clone, Copy, Debug, PartialEq, Eq, Structural)]
pub enum SocketErrorKind {
    ConnectionRefused,
}

/// A failure of the listener's socket.
#[derive(Clone, Debug, PartialEq, Eq)]
pub struct SocketError {
    pub kind: SocketErrorKind,
    pub message: String,
}

/// Turns a socket failure, given in the system's words, into the failure
/// the listeners report: a refused connection that quotes the cause.
pub fn handle_socket_error(error: &str) -> (out: SocketError)
    ensures
        out.kind == SocketErrorKind::ConnectionRefused,
        out.message@ == "Deep-link socket error: "@ + error@,
{
    let mut message = String::from_str("Deep-link socket error: ");
    message.append(error);
    SocketError { kind: SocketErrorKind::ConnectionRefused, message }
}

/// The line that records a received link.
pub fn log_deep_link_received(url: &str) -> (line: String)
    ensures
        line@ == "Deep-link received: "@ + url@,
{
    let mut line = String::from_str("Deep-link received: ");
    line.append(url);
    line
}

/// Whether the application has set its identifier.
pub fn id_already_set(id: Option<&str>) -> (set: bool)
    ensures
        set == id is Some,
{
    id.is_some()
}

/// Whether a handler is registered. The shared part keeps none.
pub fn handler_already_set() -> (set: bool)
    ensures
        !set,
{
    false
}

/// The ways a deep-link operation fails.
#[derive(Clone, Copy, Debug, PartialEq, Eq, Structural)]
pub enum DeepLinkError {
    AlreadyExists,
    NotFound,
    ConnectionFailed,
    InvalidUrl,
}

impl DeepLinkError {
    pub open spec fn display_text(self) -> Seq<char> {
        match self {
            DeepLinkError::AlreadyExists => "Deep-link handler already exists"@,
            DeepLinkError::NotFound => "Deep-link handler not found"@,
            DeepLinkError::ConnectionFailed => "Failed to connect to deep-link socket"@,
            DeepLinkError::InvalidUrl => "Invalid deep-link URL"@,
        }
    }

    /// The failure as one line of text.
    pub fn to_string(&self) -> (out: String)
        ensures
            out@ == self.display_text(),
    {
        match self {
            DeepLinkError::AlreadyExists => String::from_str("Deep-link handler already exists"),
            DeepLinkError::NotFound => String::from_str("Deep-link handler not found"),
            DeepLinkError::ConnectionFailed => String::from_str(
                "Failed to connect to deep-link socket",
            ),
            DeepLinkError::InvalidUrl => String::from_str("Invalid deep-link URL"),
        }
    }
}

/// What each platform's listener offers.
pub trait DeepLinkHandler {
    type Error;

    /// Registers a scheme with the system.
    fn register_scheme(&mut self, scheme: &str) -> Result<(), Self::Error>;

    /// Takes a scheme back from the system.
    fn unregister_scheme(&mut self, scheme: &str) -> Result<(), Self::Error>;

    /// Starts listening for links.
    fn start_listener(&mut self) -> Result<(), Self::Error>;

    /// Stops listening for links.
    fn stop_listener(&mut self) -> Result<(), Self::Error>;
}

/// The path at which the listener's socket is made.
pub fn create_socket_path(id: Option<&str>) -> (path: String)
    ensures
        path@ == socket_addr(id_text(id)),
{
    format_socket_addr(id)
}

/// Whether `url` can be a deep link: it names a scheme.
pub fn validate_deep_link_url(url: &str) -> (valid: bool)
    ensures
        valid == has_substring(url@, "://"@),
{
    proof {
        reveal_strlit("://");
        if has_substring(url@, "://"@) {
            let i = choose|i: int|
                0 <= i && i + "://"@.len() <= url@.len() && #[trigger] url@.subrange(
                    i,
                    i + "://"@.len(),
                ) == "://"@;
            assert(url@.len() >= 3);
        }
    }
    str_contains(url, "://") && !url.is_empty()
}

} // verus!
