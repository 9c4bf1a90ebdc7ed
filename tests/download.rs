use seashare::error::{Error, InternalError, UserFacing};
use seashare::raw::{content_type, resolution_url, resolve_location, UserError};
use seashare::token::HeaderText;

#[test]
fn scenario_download_follows_redirect() {
    assert_eq!(resolution_url("https://backend", "SHAREID"), "https://backend/f/SHAREID/?dl=1");
    let url = resolve_location(302, HeaderText::Text("https://backend/files/xyz".to_string()));
    assert_eq!(url.unwrap(), "https://backend/files/xyz");
    assert_eq!(content_type(), "application/octet-stream");
}

#[test]
fn redirect_location_is_kept_exactly() {
    let url = resolve_location(302, HeaderText::Text("https://backend/files/abc".to_string()));
    assert_eq!(url.unwrap(), "https://backend/files/abc");
}

#[test]
fn unknown_share_is_not_found() {
    let r = resolve_location(404, HeaderText::Absent);
    assert!(matches!(r, Err(Error::User(UserError::NotFound))));
    assert_eq!(r.unwrap_err().status_code(), 404);
}

#[test]
fn broken_redirects_are_internal() {
    let r = resolve_location(302, HeaderText::Absent);
    assert!(matches!(r, Err(Error::Internal(InternalError::MalformedRedirect))));
    let r = resolve_location(302, HeaderText::NotText);
    assert!(matches!(r, Err(Error::Internal(InternalError::MalformedRedirect))));
    let r = resolve_location(200, HeaderText::Text("x".to_string()));
    assert!(matches!(r, Err(Error::Internal(InternalError::UnexpectedStatus(200)))));
    assert_eq!(r.unwrap_err().status_code(), 500);
}
