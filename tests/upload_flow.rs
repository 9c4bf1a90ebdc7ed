use seashare::error::{Error, InternalError, UserFacing};
use seashare::relay::{Action, Event, Relay};
use seashare::token::{HeaderText, SeafileToken};
use seashare::upload::{
    accept, finish, finish_from_response, fresh_object_name, is_file_field, is_library_id,
    object_name, public_url, resolve_filename, share_id, share_links_url, share_path,
    upload_link, upload_link_url, FilenameQuery, PartScan, UploadError, UserError,
};

fn host(h: &str) -> HeaderText {
    HeaderText::Text(h.to_string())
}

fn query(f: Option<&str>) -> FilenameQuery {
    FilenameQuery { filename: f.map(|s| s.to_string()) }
}

fn drive(events: Vec<Event>) -> (Relay, Vec<Action>) {
    let (mut state, first) = Relay::start();
    let mut actions = vec![first];
    for e in events {
        assert!(state.accepts(&e), "unexpected event {:?} in {:?}", e, state);
        let (next, action) = state.step(e);
        state = next;
        actions.push(action);
    }
    (state, actions)
}

#[test]
fn scenario_upload_succeeds() {
    let library = "11111111-1111-4111-8111-111111111111";
    assert!(is_library_id(library));
    assert_eq!(upload_link_url("https://backend", library),
        "https://backend/api2/repos/11111111-1111-4111-8111-111111111111/upload-link/");

    let token = SeafileToken::parse(host("abc")).expect("token");
    assert_eq!(token.authorization(), "Token abc");

    let accepted = accept(host("gw.example"), PartScan::Found { filename: None },
        query(Some("report.pdf"))).unwrap();
    assert_eq!(accepted.host, "gw.example");
    assert_eq!(accepted.filename, "report.pdf");

    let link = upload_link(200, "\"https://backend/upload/xyz\"".to_string()).unwrap();
    assert_eq!(link, "https://backend/upload/xyz");

    let (state, actions) = drive(vec![
        Event::Chunk, Event::Taken, Event::Chunk, Event::Taken, Event::ReadEnded,
        Event::Finished(200), Event::AnswerRead,
    ]);
    assert!(matches!(state, Relay::Done(Ok(()))));
    assert!(matches!(actions.as_slice(), [
        Action::Read, Action::Forward, Action::Read, Action::Forward, Action::Read,
        Action::CloseAndJoin, Action::ReadAnswer, Action::Stop,
    ]));

    let url = finish_from_response(r#"{"link":"https://backend/f/SHAREID/"}"#.to_string(),
        "https", "gw.example", &accepted.filename).unwrap();
    assert_eq!(url, "https://gw.example/raw/SHAREID/report.pdf");
}

#[test]
fn scenario_upload_link_unauthorized() {
    let r = upload_link(401, String::new());
    assert!(matches!(r, Err(Error::User(UserError::InvalidToken))));
    assert_eq!(r.unwrap_err().status_code(), 401);
}

#[test]
fn upload_link_statuses() {
    let forbidden = upload_link(403, String::new()).unwrap_err();
    assert!(matches!(forbidden, Error::User(UserError::PermissionDenied)));
    assert_eq!(forbidden.status_code(), 403);
    let full = upload_link(500, String::new()).unwrap_err();
    assert!(matches!(full, Error::User(UserError::QuotaFull)));
    assert_eq!(full.status_code(), 507);
    let other = upload_link(418, String::new()).unwrap_err();
    assert!(matches!(other, Error::Internal(InternalError::UnexpectedStatus(418))));
    assert_eq!(other.status_code(), 500);
    let short = upload_link(200, "\"".to_string()).unwrap_err();
    assert!(matches!(short, Error::Internal(InternalError::BrokenUploadLink(ref b)) if b == "\""));
    assert_eq!(upload_link(200, "ab".to_string()).unwrap(), "");
}

#[test]
fn empty_stream_is_no_file_submitted() {
    let r = accept(host("gw.example"), PartScan::Exhausted, query(Some("a.txt")));
    assert!(matches!(r, Err(Error::User(UserError::NoFileSubmitted))));
    assert_eq!(r.err().unwrap().status_code(), 400);
}

#[test]
fn missing_filename_is_refused() {
    let r = accept(host("gw.example"), PartScan::Found { filename: None }, query(None));
    assert!(matches!(r, Err(Error::User(UserError::FilenameNotSpecified))));
}

#[test]
fn part_filename_used_without_query() {
    let a = accept(host("h"), PartScan::Found { filename: Some("notes.md".to_string()) },
        query(None)).unwrap();
    assert_eq!(a.filename, "notes.md");
    let b = accept(host("h"), PartScan::Found { filename: Some("notes.md".to_string()) },
        query(Some("q.txt"))).unwrap();
    assert_eq!(b.filename, "q.txt");
    assert_eq!(resolve_filename(None, None), None);
    assert_eq!(resolve_filename(None, Some("p".to_string())), Some("p".to_string()));
}

#[test]
fn host_and_multipart_errors() {
    let r = accept(HeaderText::Absent, PartScan::Exhausted, query(None));
    assert!(matches!(r, Err(Error::User(UserError::MissingHostHeader))));
    let r = accept(HeaderText::NotText, PartScan::Exhausted, query(None));
    assert!(matches!(r, Err(Error::User(UserError::MissingHostHeader))));
    let r = accept(host("h"), PartScan::Broken, query(Some("a")));
    assert!(matches!(r, Err(Error::User(UserError::MultipartError))));
    assert_eq!(UserError::MultipartError.status_code(), 400);
    assert_eq!(UserError::ConnectionDropped.status_code(), 400);
}

#[test]
fn file_field_names() {
    assert!(is_file_field(Some("file")));
    assert!(!is_file_field(Some("files")));
    assert!(!is_file_field(Some("parent_dir")));
    assert!(!is_file_field(None));
}

#[test]
fn object_names_keep_extension() {
    assert_eq!(object_name("tok", "report.pdf"), "tok.pdf");
    assert_eq!(object_name("tok", "archive.tar.gz"), "tok.gz");
    assert_eq!(object_name("tok", "README"), "tok");
    assert_eq!(object_name("tok", "trailing."), "tok.");
}

#[test]
fn fresh_names_are_random_tokens() {
    let a = fresh_object_name("photo.jpg");
    let b = fresh_object_name("photo.jpg");
    assert_eq!(a.chars().count(), 40);
    assert!(a.ends_with(".jpg"));
    assert_ne!(a, "photo.jpg");
    assert_ne!(a, b);
    assert!(a[..36].chars().all(|c| c == '-' || c.is_ascii_digit() || ('a'..='f').contains(&c)));
    assert_eq!(fresh_object_name("noext").len(), 36);
}

#[test]
fn library_ids() {
    assert!(is_library_id("0123abcd-0000-5fff-b000-0123456789ab"));
    assert!(!is_library_id("11111111-1111-6111-8111-111111111111"));
    assert!(!is_library_id("11111111-1111-4111-c111-111111111111"));
    assert!(!is_library_id("11111111-1111-4111-8111-11111111111"));
    assert!(!is_library_id("11111111-1111-4111-8111-11111111111A"));
    assert!(!is_library_id("11111111x1111-4111-8111-111111111111"));
}

#[test]
fn share_ids() {
    assert_eq!(share_id("https://backend/f/SHAREID/"), Some("SHAREID".to_string()));
    assert_eq!(share_id("https://backend/f/SHAREID"), Some("SHAREID".to_string()));
    assert_eq!(share_id("nolink"), None);
    assert_eq!(share_id(""), None);
}

#[test]
fn public_urls() {
    assert_eq!(public_url("http", "localhost:8080", "abc", "x.bin"),
        "http://localhost:8080/raw/abc/x.bin");
    assert_eq!(share_links_url("https://backend"), "https://backend/api/v2.1/share-links/");
    assert_eq!(share_path("tok.pdf"), "/tok.pdf");
}

#[test]
fn malformed_share_link_answers() {
    let r = finish_from_response("not json".to_string(), "https", "h", "f");
    assert!(matches!(r, Err(Error::Internal(InternalError::MalformedShareLink(ref b))) if b == "not json"));
    let r = finish_from_response(r#"{"link": 5}"#.to_string(), "https", "h", "f");
    assert!(matches!(r, Err(Error::Internal(InternalError::MalformedShareLink(_)))));
    let r = finish_from_response(r#"{"other":"x"}"#.to_string(), "https", "h", "f");
    assert!(matches!(r, Err(Error::Internal(InternalError::MalformedShareLink(_)))));
    let r: Result<String, UploadError> = finish(Some("noslash".to_string()), String::new(), "https", "h", "f");
    assert!(matches!(r, Err(Error::Internal(InternalError::MalformedShareLink(ref l))) if l == "noslash"));
    let r = finish(Some("https://b/f/ID/".to_string()), String::new(), "http", "h", "f.txt");
    assert_eq!(r.unwrap(), "http://h/raw/ID/f.txt");
}

#[test]
fn tokens() {
    assert_eq!(SeafileToken::name(), "seafile-token");
    assert_eq!(SeafileToken::parse(host("abc")).unwrap().0, "abc");
    assert!(SeafileToken::parse(host("")).is_none());
    assert!(SeafileToken::parse(HeaderText::Absent).is_none());
    assert!(SeafileToken::parse(HeaderText::NotText).is_none());
}
