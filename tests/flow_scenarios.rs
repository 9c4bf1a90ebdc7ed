use seashare::error::{Error, InternalError, UserFacing};
use seashare::flow::{FlowAction, FlowEvent, Stage, UploadFlow};
use seashare::relay::{Action, Event};
use seashare::token::HeaderText;
use seashare::upload::{FilenameQuery, PartScan, UserError};

fn begin(filename: Option<&str>) -> (UploadFlow, FlowAction) {
    UploadFlow::begin(
        HeaderText::Text("gw.example".to_string()),
        PartScan::Found { filename: None },
        FilenameQuery { filename: filename.map(|s| s.to_string()) },
        "https".to_string(),
    )
    .unwrap()
}

fn step(flow: UploadFlow, e: FlowEvent) -> (UploadFlow, FlowAction) {
    assert!(flow.accepts(&e), "unexpected {:?} in {:?}", e, flow.stage);
    flow.step(e)
}

#[test]
fn scenario_end_to_end_upload() {
    let (flow, action) = begin(Some("report.pdf"));
    assert!(matches!(action, FlowAction::RequestLink));
    assert!(flow.object_name.ends_with(".pdf"));
    assert_eq!(flow.object_name.len(), 40);
    let object_name = flow.object_name.clone();

    let (flow, action) =
        step(flow, FlowEvent::LinkAnswer(200, "\"https://backend/upload/xyz\"".to_string()));
    assert!(matches!(action, FlowAction::OpenUpload(ref l) if l == "https://backend/upload/xyz"));
    let (flow, action) = step(flow, FlowEvent::Opened { closed: false });
    assert!(matches!(action, FlowAction::Relay(Action::Read)));
    let (flow, action) = step(flow, FlowEvent::Relay(Event::Chunk));
    assert!(matches!(action, FlowAction::Relay(Action::Forward)));
    let (flow, _) = step(flow, FlowEvent::Relay(Event::Taken));
    let (flow, action) = step(flow, FlowEvent::Relay(Event::ReadEnded));
    assert!(matches!(action, FlowAction::Relay(Action::CloseAndJoin)));
    let (flow, action) = step(flow, FlowEvent::Relay(Event::Finished(200)));
    assert!(matches!(action, FlowAction::Relay(Action::ReadAnswer)));
    let (flow, action) = step(flow, FlowEvent::Relay(Event::AnswerRead));
    match action {
        FlowAction::RequestShare(path) => assert_eq!(path, format!("/{object_name}")),
        other => panic!("expected a share request, got {other:?}"),
    }
    let (flow, action) = step(
        flow,
        FlowEvent::ShareAnswer(r#"{"link":"https://backend/f/SHAREID/"}"#.to_string()),
    );
    assert!(matches!(action, FlowAction::Stop));
    match flow.stage {
        Stage::Done(Ok(url)) => assert_eq!(url, "https://gw.example/raw/SHAREID/report.pdf"),
        other => panic!("expected a public link, got {other:?}"),
    }
}

#[test]
fn scenario_unauthorized_link_stops() {
    let (flow, _) = begin(Some("report.pdf"));
    let (flow, action) = step(flow, FlowEvent::LinkAnswer(401, String::new()));
    assert!(matches!(action, FlowAction::Stop));
    let Stage::Done(Err(e)) = &flow.stage else { panic!("not done") };
    assert!(matches!(e, Error::User(UserError::InvalidToken)));
    assert_eq!(e.status_code(), 401);
    assert!(!flow.accepts(&FlowEvent::CallFailed));
    assert!(!flow.accepts(&FlowEvent::ShareAnswer(String::new())));
}

#[test]
fn refused_upload_makes_no_flow() {
    let r = UploadFlow::begin(HeaderText::Text("h".to_string()), PartScan::Exhausted,
        FilenameQuery { filename: Some("a.txt".to_string()) }, "https".to_string());
    assert!(matches!(r, Err(Error::User(UserError::NoFileSubmitted))));
    let r = UploadFlow::begin(HeaderText::Text("h".to_string()), PartScan::Found { filename: None },
        FilenameQuery { filename: None }, "https".to_string());
    assert!(matches!(r, Err(Error::User(UserError::FilenameNotSpecified))));
}

#[test]
fn broken_upload_link_stops_before_relay() {
    let (flow, _) = begin(Some("a.bin"));
    let (flow, _) = step(flow, FlowEvent::LinkAnswer(200, "\"not a url\"".to_string()));
    let (flow, action) = step(flow, FlowEvent::Opened { closed: true });
    assert!(matches!(action, FlowAction::Stop));
    assert!(matches!(flow.stage,
        Stage::Done(Err(Error::Internal(InternalError::BrokenUploadLink(ref l)))) if l == "not a url"));
}

#[test]
fn dropped_client_mid_flow() {
    let (flow, _) = begin(Some("a.bin"));
    let (flow, _) = step(flow, FlowEvent::LinkAnswer(200, "\"u\"".to_string()));
    let (flow, _) = step(flow, FlowEvent::Opened { closed: false });
    let (flow, _) = step(flow, FlowEvent::Relay(Event::Chunk));
    let (flow, _) = step(flow, FlowEvent::Relay(Event::Taken));
    let (flow, action) = step(flow, FlowEvent::Relay(Event::ReadFailed));
    assert!(matches!(action, FlowAction::Relay(Action::SendAbort)));
    let (flow, action) = step(flow, FlowEvent::Relay(Event::Taken));
    assert!(matches!(action, FlowAction::Relay(Action::CloseAndJoin)));
    let (flow, action) = step(flow, FlowEvent::Relay(Event::Finished(500)));
    assert!(matches!(action, FlowAction::Stop));
    assert!(matches!(flow.stage, Stage::Done(Err(Error::User(UserError::ConnectionDropped)))));
}

#[test]
fn failed_backend_calls_are_internal() {
    let (flow, _) = begin(Some("a.bin"));
    let (flow, action) = step(flow, FlowEvent::CallFailed);
    assert!(matches!(action, FlowAction::Stop));
    assert!(matches!(flow.stage, Stage::Done(Err(Error::Internal(InternalError::Transport)))));

    let (flow, _) = begin(Some("a.bin"));
    let (flow, _) = step(flow, FlowEvent::LinkAnswer(403, String::new()));
    assert!(matches!(flow.stage, Stage::Done(Err(Error::User(UserError::PermissionDenied)))));
}
