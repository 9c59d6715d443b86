//! Errors of the client: those the client finds itself, and those the server
//! reports.
use vstd::prelude::*;

verus! {

/// Error type for errors originating from the ACI Client
#[derive(Debug, Clone)]
pub struct ACIClientError {
    data: String,
}

impl View for ACIClientError {
    type V = Seq<char>;

    /// The text of the error.
    closed spec fn view(&self) -> Seq<char> {
        self.data@
    }
}

impl ACIClientError {
    /// An error with the text `data`.
    pub fn new(data: String) -> (r: Self)
        ensures
            r@ == data@,
    {
        Self { data }
    }

    /// The text of the error, as it is displayed.
    pub fn to_string(&self) -> (r: String)
        ensures
            r@ == self@,
    {
        self.data.clone()
    }
}

/// Error type for errors returned from the ACI server
#[derive(Debug, Clone)]
pub struct ACIServerError {
    data: String,
}

impl View for ACIServerError {
    type V = Seq<char>;

    /// The text of the error.
    closed spec fn view(&self) -> Seq<char> {
        self.data@
    }
}

impl ACIServerError {
    /// An error with the text `data`.
    pub fn new(data: String) -> (r: Self)
        ensures
            r@ == data@,
    {
        Self { data }
    }

    /// The text of the error, as it is displayed.
    pub fn to_string(&self) -> (r: String)
        ensures
            r@ == self@,
    {
        self.data.clone()
    }
}

/// Common Error Type
#[derive(Debug)]
pub enum ACIError {
    ClientError(ACIClientError),
    ServerError(ACIServerError),
}

/// `e` is a client error with the text `msg`.
pub open spec fn is_client_error(e: ACIError, msg: Seq<char>) -> bool {
    e matches ACIError::ClientError(c) && c@ == msg
}

/// `e` is a server error with the text `msg`.
pub open spec fn is_server_error(e: ACIError, msg: Seq<char>) -> bool {
    e matches ACIError::ServerError(s) && s@ == msg
}

/// A client error with the text `msg`.
pub fn client_error(msg: &str) -> (r: ACIError)
    ensures
        is_client_error(r, msg@),
{
    ACIError::ClientError(ACIClientError::new(msg.to_owned()))
}

/// The error for a request that could not be written to the socket, with
/// `detail`, the socket's own account of what went wrong.
pub fn socket_write_error(detail: &str) -> (r: ACIError)
    ensures
        is_client_error(r, "Cannot write to socket "@ + detail@),
{
    let mut text = "Cannot write to socket ".to_owned();
    text.append(detail);
    ACIError::ClientError(ACIClientError::new(text))
}

} // verus!
