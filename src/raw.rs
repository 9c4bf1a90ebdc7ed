use vstd::prelude::*;
use vstd::string::*;

use crate::error::{Error, InternalError, UserFacing};
use crate::text::join3;
use crate::token::HeaderText;

verus! {

/// Download failures that are the client's to know of.
#[derive(Debug)]
pub enum UserError {
    NotFound,
}

pub type GetRawError = Error<UserError>;

pub const NOT_FOUND: u16 = 404;

/// The status of the backend's answer that resolves a share link.
pub const FOUND: u16 = 302;

impl UserFacing for UserError {
    open spec fn status_spec(&self) -> u16 {
        NOT_FOUND
    }

    fn status_code(&self) -> (r: u16) {
        match self {
            UserError::NotFound => NOT_FOUND,
        }
    }
}

pub open spec fn resolution_url_spec(server: Seq<char>, share_link: Seq<char>) -> Seq<char> {
    server + seq!['/', 'f', '/'] + share_link + seq!['/', '?', 'd', 'l', '=', '1']
}

/// The backend address that resolves a share link to its file:
/// `<server>/f/<share link>/?dl=1`.
pub fn resolution_url(server: &str, share_link: &str) -> (r: String)
    ensures
        r@ == resolution_url_spec(server@, share_link@),
{
    proof {
        reveal_strlit("/f/");
        reveal_strlit("/?dl=1");
    }
    let mut r = join3(server, "/f/", share_link);
    r.append("/?dl=1");
    assert(r@ =~= resolution_url_spec(server@, share_link@));
    r
}

/// Where the content of a shared file is to be fetched, from the backend's
/// answer to the resolution request: its status and `Location` header.
pub fn resolve_location(status: u16, location: HeaderText) -> (r: Result<String, GetRawError>)
    ensures
        r is Ok <==> status == FOUND && location is Text,
        r matches Ok(url) ==> (location matches HeaderText::Text(l) && url@ == l@),
        status == NOT_FOUND <==> r matches Err(Error::User(UserError::NotFound)),
        status == FOUND && !(location is Text) ==> r matches Err(
            Error::Internal(InternalError::MalformedRedirect),
        ),
        status != FOUND && status != NOT_FOUND ==> (r matches Err(
            Error::Internal(InternalError::UnexpectedStatus(s)),
        ) && s == status),
{
    if status == FOUND {
        match location {
            HeaderText::Text(l) => Ok(l),
            _ => Err(Error::Internal(InternalError::MalformedRedirect)),
        }
    } else if status == NOT_FOUND {
        Err(Error::User(UserError::NotFound))
    } else {
        Err(Error::Internal(InternalError::UnexpectedStatus(status)))
    }
}

pub open spec fn octet_stream() -> Seq<char> {
    seq![
        'a', 'p', 'p', 'l', 'i', 'c', 'a', 't', 'i', 'o', 'n', '/',
        'o', 'c', 't', 'e', 't', '-', 's', 't', 'r', 'e', 'a', 'm',
    ]
}

/// The content type of every relayed download: generic binary.
pub fn content_type() -> (r: String)
    ensures
        r@ == octet_stream(),
{
    proof {
        reveal_strlit("application/octet-stream");
    }
    let r = String::from_str("application/octet-stream");
    assert(r@ =~= octet_stream());
    r
}

} // verus!
