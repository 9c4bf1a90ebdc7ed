use vstd::prelude::*;
use vstd::string::*;

use crate::error::{Error, InternalError, UserFacing};
use crate::text::{after_last, find_last, join3, last_pos, lemma_last_pos_bounds};
use crate::token::HeaderText;

verus! {

/// Upload failures that are the client's to fix.
#[derive(Debug)]
pub enum UserError {
    MissingHostHeader,
    NoFileSubmitted,
    FilenameNotSpecified,
    InvalidToken,
    PermissionDenied,
    QuotaFull,
    ConnectionDropped,
    MultipartError,
}

pub type UploadError = Error<UserError>;

pub const BAD_REQUEST: u16 = 400;
pub const UNAUTHORIZED: u16 = 401;
pub const FORBIDDEN: u16 = 403;
pub const INSUFFICIENT_STORAGE: u16 = 507;

impl UserFacing for UserError {
    open spec fn status_spec(&self) -> u16 {
        match self {
            UserError::InvalidToken => UNAUTHORIZED,
            UserError::PermissionDenied => FORBIDDEN,
            UserError::QuotaFull => INSUFFICIENT_STORAGE,
            _ => BAD_REQUEST,
        }
    }

    fn status_code(&self) -> (r: u16) {
        match self {
            UserError::MissingHostHeader
            | UserError::NoFileSubmitted
            | UserError::MultipartError
            | UserError::ConnectionDropped
            | UserError::FilenameNotSpecified => BAD_REQUEST,
            UserError::InvalidToken => UNAUTHORIZED,
            UserError::PermissionDenied => FORBIDDEN,
            UserError::QuotaFull => INSUFFICIENT_STORAGE,
        }
    }
}

/// The query string of an upload request.
pub struct FilenameQuery {
    pub filename: Option<String>,
}

/// What the search for the first multipart part named `file` came to.
#[derive(Debug)]
pub enum PartScan {
    /// The part was found; `filename` is the one its own metadata gives.
    Found { filename: Option<String> },
    /// The body ended before such a part.
    Exhausted,
    /// The multipart body could not be read.
    Broken,
}

/// An upload request that passed every check made before the backend is
/// contacted.
#[derive(Debug)]
pub struct Accepted {
    pub host: String,
    pub filename: String,
}

pub open spec fn is_file_field_spec(name: Option<Seq<char>>) -> bool {
    name == Some(seq!['f', 'i', 'l', 'e'])
}

/// Whether a multipart part with this field name carries the upload.
pub fn is_file_field(name: Option<&str>) -> (r: bool)
    ensures
        r == is_file_field_spec(
            match name {
                Some(s) => Some(s@),
                None => None,
            },
        ),
{
    match name {
        Some(s) => {
            proof {
                reveal_strlit("file");
            }
            let n = s.unicode_len();
            if n != 4 {
                return false;
            }
            let r = s.get_char(0) == 'f' && s.get_char(1) == 'i' && s.get_char(2) == 'l'
                && s.get_char(3) == 'e';
            assert(r ==> s@ =~= seq!['f', 'i', 'l', 'e']);
            r
        },
        None => false,
    }
}

pub open spec fn opt_view(o: Option<String>) -> Option<Seq<char>> {
    match o {
        Some(s) => Some(s@),
        None => None,
    }
}

/// The filename of an upload: the query's, else the one the part gives.
pub open spec fn resolve_filename_spec(
    query: Option<Seq<char>>,
    part: Option<Seq<char>>,
) -> Option<Seq<char>> {
    if query is Some {
        query
    } else {
        part
    }
}

pub fn resolve_filename(query: Option<String>, part: Option<String>) -> (r: Option<String>)
    ensures
        opt_view(r) == resolve_filename_spec(opt_view(query), opt_view(part)),
{
    match query {
        Some(q) => Some(q),
        None => part,
    }
}

/// The checks made before any backend call, in order: a `Host` header, a
/// `file` part, a filename.
pub open spec fn accept_spec(host: HeaderText, scan: PartScan, query: Option<Seq<char>>) -> Result<
    (Seq<char>, Seq<char>),
    UserError,
> {
    match host {
        HeaderText::Text(h) => match scan {
            PartScan::Broken => Err(UserError::MultipartError),
            PartScan::Exhausted => Err(UserError::NoFileSubmitted),
            PartScan::Found { filename } => match resolve_filename_spec(query, opt_view(filename)) {
                Some(f) => Ok((h@, f)),
                None => Err(UserError::FilenameNotSpecified),
            },
        },
        _ => Err(UserError::MissingHostHeader),
    }
}

/// Decides whether an upload may go ahead, before anything is asked of the
/// backend.
pub fn accept(host: HeaderText, scan: PartScan, query: FilenameQuery) -> (r: Result<
    Accepted,
    UploadError,
>)
    ensures
        match (r, accept_spec(host, scan, opt_view(query.filename))) {
            (Ok(a), Ok((h, f))) => a.host@ == h && a.filename@ == f,
            (Err(Error::User(e)), Err(e2)) => e == e2,
            _ => false,
        },
{
    let host = match host {
        HeaderText::Text(h) => h,
        _ => return Err(Error::User(UserError::MissingHostHeader)),
    };
    let part_filename = match scan {
        PartScan::Broken => return Err(Error::User(UserError::MultipartError)),
        PartScan::Exhausted => return Err(Error::User(UserError::NoFileSubmitted)),
        PartScan::Found { filename } => filename,
    };
    match resolve_filename(query.filename, part_filename) {
        Some(filename) => Ok(Accepted { host, filename }),
        None => Err(Error::User(UserError::FilenameNotSpecified)),
    }
}

/// The name an upload is stored under: a fresh token, followed by the
/// extension of the client's filename, if it has one.
pub open spec fn object_name_spec(token: Seq<char>, filename: Seq<char>) -> Seq<char> {
    match after_last(filename, '.') {
        Some(ext) => token + seq!['.'] + ext,
        None => token,
    }
}

pub fn object_name(token: &str, filename: &str) -> (r: String)
    ensures
        r@ == object_name_spec(token@, filename@),
{
    let n = filename.unicode_len();
    match find_last(filename, '.') {
        Some(i) => {
            proof {
                lemma_last_pos_bounds(filename@, '.');
            }
            let ext = filename.substring_char(i + 1, n);
            proof {
                reveal_strlit(".");
            }
            let r = join3(token, ".", ext);
            assert(r@ =~= object_name_spec(token@, filename@));
            r
        },
        None => String::from_str(token),
    }
}

pub open spec fn is_token_char(c: char) -> bool {
    ('0' <= c && c <= '9') || ('a' <= c && c <= 'f') || c == '-'
}

/// A random identifier in hyphenated form.
pub open spec fn is_token_text(t: Seq<char>) -> bool {
    t.len() == 36 && forall|i: int| 0 <= i < t.len() ==> is_token_char(#[trigger] t[i])
}

/// Relies on uuid::Uuid::new_v4, whose `to_string` writes the hyphenated
/// lower-case form: 36 characters, each a hex digit or a hyphen.
#[verifier::external_body]
fn new_token() -> (r: String)
    ensures
        is_token_text(r@),
{
    uuid::Uuid::new_v4().to_string()
}

/// A fresh name to store an upload under, keeping the filename's extension.
pub fn fresh_object_name(filename: &str) -> (r: String)
    ensures
        exists|t: Seq<char>| is_token_text(t) && r@ == object_name_spec(t, filename@),
{
    let token = new_token();
    object_name(token.as_str(), filename)
}

/// The upload link inside the backend's quoted answer: the text between its
/// first and its last character.
pub open spec fn unquote_spec(body: Seq<char>) -> Option<Seq<char>> {
    if body.len() >= 2 {
        Some(body.subrange(1, body.len() - 1))
    } else {
        None
    }
}

/// Interprets the backend's answer to the request for an upload link.
pub fn upload_link(status: u16, body: String) -> (r: Result<String, UploadError>)
    ensures
        r is Ok <==> status == 200 && body@.len() >= 2,
        r matches Ok(l) ==> Some(l@) == unquote_spec(body@),
        status == 200 && body@.len() < 2 ==> (r matches Err(
            Error::Internal(InternalError::BrokenUploadLink(b)),
        ) && b@ == body@),
        status == 401 ==> r matches Err(Error::User(UserError::InvalidToken)),
        status == 403 ==> r matches Err(Error::User(UserError::PermissionDenied)),
        status == 500 ==> r matches Err(Error::User(UserError::QuotaFull)),
        status != 200 && status != 401 && status != 403 && status != 500 ==> (r matches Err(
            Error::Internal(InternalError::UnexpectedStatus(s)),
        ) && s == status),
{
    if status == 200 {
        let n = body.as_str().unicode_len();
        if n < 2 {
            Err(Error::Internal(InternalError::BrokenUploadLink(body)))
        } else {
            let link = body.as_str().substring_char(1, n - 1);
            Ok(String::from_str(link))
        }
    } else if status == 401 {
        Err(Error::User(UserError::InvalidToken))
    } else if status == 403 {
        Err(Error::User(UserError::PermissionDenied))
    } else if status == 500 {
        Err(Error::User(UserError::QuotaFull))
    } else {
        Err(Error::Internal(InternalError::UnexpectedStatus(status)))
    }
}

/// The `link` member of a JSON object, where the text is one and the member
/// is a string.
pub uninterp spec fn link_field_of(body: Seq<char>) -> Option<Seq<char>>;

/// Relies on serde_json::from_str into a `Value`, then `Value`'s index by
/// key and `as_str`: the `link` member, where the body parses and it is a
/// string. A parse depends on the text alone.
#[verifier::external_body]
fn json_link_field(body: &str) -> (r: Option<String>)
    ensures
        opt_view(r) == link_field_of(body@),
{
    match serde_json::from_str::<serde_json::Value>(body) {
        Ok(v) => v["link"].as_str().map(String::from),
        Err(_) => None,
    }
}

/// The trailing path segment of a share link, after its own trailing `/`
/// is taken off.
pub open spec fn share_id_spec(link: Seq<char>) -> Option<Seq<char>> {
    let trimmed = if link.len() > 0 && link.last() == '/' {
        link.drop_last()
    } else {
        link
    };
    after_last(trimmed, '/')
}

pub fn share_id(link: &str) -> (r: Option<String>)
    ensures
        opt_view(r) == share_id_spec(link@),
{
    let n = link.unicode_len();
    let trimmed = if n > 0 && link.get_char(n - 1) == '/' {
        link.substring_char(0, n - 1)
    } else {
        link.substring_char(0, n)
    };
    assert(n > 0 && link@.last() == '/' ==> trimmed@ =~= link@.drop_last());
    assert(!(n > 0 && link@.last() == '/') ==> trimmed@ =~= link@);
    let m = trimmed.unicode_len();
    match find_last(trimmed, '/') {
        Some(i) => {
            proof {
                lemma_last_pos_bounds(trimmed@, '/');
            }
            Some(String::from_str(trimmed.substring_char(i + 1, m)))
        },
        None => None,
    }
}

pub open spec fn public_url_spec(
    protocol: Seq<char>,
    host: Seq<char>,
    share_id: Seq<char>,
    filename: Seq<char>,
) -> Seq<char> {
    protocol + seq![':', '/', '/'] + host + seq!['/', 'r', 'a', 'w', '/'] + share_id + seq!['/']
        + filename
}

/// The link handed back to the uploader: `<protocol>://<host>/raw/<share id>/<filename>`.
pub fn public_url(protocol: &str, host: &str, share_id: &str, filename: &str) -> (r: String)
    ensures
        r@ == public_url_spec(protocol@, host@, share_id@, filename@),
{
    proof {
        reveal_strlit("://");
        reveal_strlit("/raw/");
        reveal_strlit("/");
    }
    let mut r = join3(protocol, "://", host);
    r.append("/raw/");
    r.append(share_id);
    r.append("/");
    r.append(filename);
    assert(r@ =~= public_url_spec(protocol@, host@, share_id@, filename@));
    r
}

/// What an upload returns once the share link's `link` field was read out of
/// the backend's answer.
pub open spec fn finish_spec(
    field: Option<Seq<char>>,
    protocol: Seq<char>,
    host: Seq<char>,
    filename: Seq<char>,
) -> Option<Seq<char>> {
    match field {
        Some(link) => match share_id_spec(link) {
            Some(id) => Some(public_url_spec(protocol, host, id, filename)),
            None => None,
        },
        None => None,
    }
}

/// Composes the public link from the `link` field of the share-link answer
/// `body`; a missing field or one without a path segment is a malformed
/// share link.
pub fn finish(
    field: Option<String>,
    body: String,
    protocol: &str,
    host: &str,
    filename: &str,
) -> (r: Result<String, UploadError>)
    ensures
        match finish_spec(opt_view(field), protocol@, host@, filename@) {
            Some(url) => r matches Ok(u) && u@ == url,
            None => r matches Err(Error::Internal(InternalError::MalformedShareLink(_))),
        },
        field is None ==> (r matches Err(Error::Internal(InternalError::MalformedShareLink(b)))
            && b@ == body@),
{
    match field {
        Some(link) => match share_id(link.as_str()) {
            Some(id) => Ok(public_url(protocol, host, id.as_str(), filename)),
            None => Err(Error::Internal(InternalError::MalformedShareLink(link))),
        },
        None => Err(Error::Internal(InternalError::MalformedShareLink(body))),
    }
}

/// Reads the backend's share-link answer and composes the public link.
pub fn finish_from_response(body: String, protocol: &str, host: &str, filename: &str) -> (r: Result<
    String,
    UploadError,
>)
    ensures
        match finish_spec(link_field_of(body@), protocol@, host@, filename@) {
            Some(url) => r matches Ok(u) && u@ == url,
            None => r matches Err(Error::Internal(InternalError::MalformedShareLink(_))),
        },
{
    let field = json_link_field(body.as_str());
    finish(field, body, protocol, host, filename)
}

pub open spec fn is_hex_char(c: char) -> bool {
    ('0' <= c && c <= '9') || ('a' <= c && c <= 'f')
}

/// The character allowed at position `i` of a library identifier.
pub open spec fn library_char_ok(i: int, c: char) -> bool {
    if i == 8 || i == 13 || i == 18 || i == 23 {
        c == '-'
    } else if i == 14 {
        '0' <= c && c <= '5'
    } else if i == 19 {
        c == '0' || c == '8' || c == '9' || c == 'a' || c == 'b'
    } else {
        is_hex_char(c)
    }
}

/// A library identifier has the shape of a UUID:
/// `xxxxxxxx-xxxx-Vxxx-Nxxx-xxxxxxxxxxxx`, lower-case hex digits, with the
/// version digit `V` at most 5 and the variant digit `N` one of `0 8 9 a b`.
pub open spec fn is_library_id_spec(s: Seq<char>) -> bool {
    s.len() == 36 && forall|i: int| 0 <= i < 36 ==> library_char_ok(i, #[trigger] s[i])
}

/// Whether an upload path names a library; other paths are not routed.
pub fn is_library_id(s: &str) -> (r: bool)
    ensures
        r == is_library_id_spec(s@),
{
    let n = s.unicode_len();
    if n != 36 {
        return false;
    }
    let mut i: usize = 0;
    while i < 36
        invariant
            n == s@.len() == 36,
            i <= 36,
            forall|j: int| 0 <= j < i ==> library_char_ok(j, #[trigger] s@[j]),
        decreases 36 - i,
    {
        let c = s.get_char(i);
        let ok = if i == 8 || i == 13 || i == 18 || i == 23 {
            c == '-'
        } else if i == 14 {
            '0' <= c && c <= '5'
        } else if i == 19 {
            c == '0' || c == '8' || c == '9' || c == 'a' || c == 'b'
        } else {
            ('0' <= c && c <= '9') || ('a' <= c && c <= 'f')
        };
        if !ok {
            return false;
        }
        i = i + 1;
    }
    true
}

pub open spec fn upload_link_url_spec(server: Seq<char>, library: Seq<char>) -> Seq<char> {
    server + seq!['/', 'a', 'p', 'i', '2', '/', 'r', 'e', 'p', 'o', 's', '/'] + library + seq![
        '/', 'u', 'p', 'l', 'o', 'a', 'd', '-', 'l', 'i', 'n', 'k', '/',
    ]
}

/// The backend address that hands out a one-time upload link for a library:
/// `<server>/api2/repos/<library>/upload-link/`.
pub fn upload_link_url(server: &str, library: &str) -> (r: String)
    ensures
        r@ == upload_link_url_spec(server@, library@),
{
    proof {
        reveal_strlit("/api2/repos/");
        reveal_strlit("/upload-link/");
    }
    let mut r = join3(server, "/api2/repos/", library);
    r.append("/upload-link/");
    assert(r@ =~= upload_link_url_spec(server@, library@));
    r
}

pub open spec fn share_links_url_spec(server: Seq<char>) -> Seq<char> {
    server + seq![
        '/', 'a', 'p', 'i', '/', 'v', '2', '.', '1', '/', 's', 'h', 'a', 'r', 'e', '-', 'l',
        'i', 'n', 'k', 's', '/',
    ]
}

/// The backend address that creates share links: `<server>/api/v2.1/share-links/`.
pub fn share_links_url(server: &str) -> (r: String)
    ensures
        r@ == share_links_url_spec(server@),
{
    proof {
        reveal_strlit("/api/v2.1/share-links/");
    }
    let mut r = String::from_str(server);
    r.append("/api/v2.1/share-links/");
    assert(r@ =~= share_links_url_spec(server@));
    r
}

/// The path of a stored upload inside its library: `/<object name>`.
pub fn share_path(object_name: &str) -> (r: String)
    ensures
        r@ == seq!['/'] + object_name@,
{
    proof {
        reveal_strlit("/");
    }
    let mut r = String::from_str("/");
    r.append(object_name);
    r
}

/// An upload without a `file` part is refused as such, before the backend
/// is asked anything.
pub proof fn lemma_no_file_part(host: String, query: Option<Seq<char>>)
    ensures
        accept_spec(HeaderText::Text(host), PartScan::Exhausted, query) == Err::<
            (Seq<char>, Seq<char>),
            UserError,
        >(UserError::NoFileSubmitted),
{
}

/// A `file` part without a filename, and no filename in the query, is
/// refused before the upload link is asked for.
pub proof fn lemma_no_filename(host: String)
    ensures
        accept_spec(HeaderText::Text(host), PartScan::Found { filename: None }, None) == Err::<
            (Seq<char>, Seq<char>),
            UserError,
        >(UserError::FilenameNotSpecified),
{
}

} // verus!
