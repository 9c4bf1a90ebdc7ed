use vstd::prelude::*;

verus! {

/// HTTP status sent for every internal failure.
pub const INTERNAL_SERVER_ERROR: u16 = 500;

/// Failures that are not the user's doing. Their detail is for the server's
/// log only; clients see a generic server error.
#[derive(Debug)]
pub enum InternalError {
    /// The backend handed out an upload link that cannot be used.
    BrokenUploadLink(String),
    /// The share-link response did not hold a usable `link` field.
    MalformedShareLink(String),
    /// A redirect came without a readable `Location` header.
    MalformedRedirect,
    /// The backend answered with a status that the protocol does not expect.
    UnexpectedStatus(u16),
    /// An outbound call failed below HTTP (DNS, TCP, TLS, a dropped task).
    Transport,
    /// The backend upload finished while the relay still held data for it.
    UploadEndedEarly,
}

/// An error that may be shown to the user, with the status it is sent with.
pub trait UserFacing {
    spec fn status_spec(&self) -> u16;

    fn status_code(&self) -> (r: u16)
        ensures
            r == self.status_spec(),
    ;
}

/// The outcome of a failed request: the user's fault, or ours.
#[derive(Debug)]
pub enum Error<U> {
    User(U),
    Internal(InternalError),
}

impl<U: UserFacing> Error<U> {
    pub open spec fn status_spec(&self) -> u16 {
        match self {
            Error::User(e) => e.status_spec(),
            Error::Internal(_) => INTERNAL_SERVER_ERROR,
        }
    }

    pub fn status_code(&self) -> (r: u16)
        ensures
            r == self.status_spec(),
    {
        match self {
            Error::User(e) => e.status_code(),
            Error::Internal(_) => INTERNAL_SERVER_ERROR,
        }
    }
}

} // verus!
