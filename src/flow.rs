use vstd::prelude::*;

use crate::error::{Error, InternalError};
use crate::relay::{accepts, action_of, next_spec, Action, Event, Relay};
use crate::token::HeaderText;
use crate::upload::{
    accept, accept_spec, finish_from_response, finish_spec, fresh_object_name, is_token_text,
    link_field_of, object_name_spec, opt_view, share_path, unquote_spec, upload_link, Accepted,
    FilenameQuery, PartScan, UploadError, UserError,
};

verus! {

/// How far an accepted upload has come.
#[derive(Debug)]
pub enum Stage {
    /// The backend was asked for a one-time upload link.
    AwaitingLink,
    /// The backend upload request was built for this link.
    Opening(String),
    /// The file is being relayed to the backend.
    Relaying(Relay),
    /// The backend was asked for a share link to the stored file.
    AwaitingShare,
    /// The upload is over: the public link, or why not.
    Done(Result<String, UploadError>),
}

/// One upload, from its acceptance to the public link.
#[derive(Debug)]
pub struct UploadFlow {
    pub stage: Stage,
    pub accepted: Accepted,
    pub object_name: String,
    pub protocol: String,
}

/// What the backend, the channel or the client answered.
#[derive(Debug)]
pub enum FlowEvent {
    /// The upload-link request was answered with this status and body.
    LinkAnswer(u16, String),
    /// A backend call failed below HTTP.
    CallFailed,
    /// The backend upload request was built; `closed` tells whether its body
    /// channel was already dropped, as it is for a link the client rejects.
    Opened { closed: bool },
    /// What the relay's last action came to.
    Relay(Event),
    /// The share-link request was answered with this body.
    ShareAnswer(String),
}

/// The next thing to do.
#[derive(Debug)]
pub enum FlowAction {
    /// Ask the backend for an upload link.
    RequestLink,
    /// Build the backend upload request for this link, with a channel of
    /// capacity one as its body, and start it.
    OpenUpload(String),
    /// Carry out the relay's action.
    Relay(Action),
    /// Ask the backend for a share link to the stored file at this path.
    RequestShare(String),
    /// Nothing more: the upload is over.
    Stop,
}

pub open spec fn flow_accepts(stage: Stage, e: FlowEvent) -> bool {
    match stage {
        Stage::AwaitingLink => e is LinkAnswer || e is CallFailed,
        Stage::Opening(_) => e is Opened,
        Stage::Relaying(r) => match e {
            FlowEvent::Relay(re) => accepts(r, re),
            _ => false,
        },
        Stage::AwaitingShare => e is ShareAnswer || e is CallFailed,
        Stage::Done(_) => false,
    }
}

/// The error an unusable answer to the upload-link request ends in.
pub open spec fn link_error_matches(status: u16, err: UploadError) -> bool {
    if status == 401 {
        err matches Error::User(UserError::InvalidToken)
    } else if status == 403 {
        err matches Error::User(UserError::PermissionDenied)
    } else if status == 500 {
        err matches Error::User(UserError::QuotaFull)
    } else {
        err is Internal
    }
}

impl UploadFlow {
    pub open spec fn same_request(&self, other: &UploadFlow) -> bool {
        &&& self.accepted.host@ == other.accepted.host@
        &&& self.accepted.filename@ == other.accepted.filename@
        &&& self.object_name@ == other.object_name@
        &&& self.protocol@ == other.protocol@
    }

    /// Checks an upload request and, where it passes, starts it with the
    /// request for an upload link. A refused request asks nothing of the
    /// backend.
    pub fn begin(host: HeaderText, scan: PartScan, query: FilenameQuery, protocol: String) -> (r:
        Result<(UploadFlow, FlowAction), UploadError>)
        ensures
            match (r, accept_spec(host, scan, opt_view(query.filename))) {
                (Ok((f, a)), Ok((h, name))) => {
                    &&& f.stage is AwaitingLink
                    &&& a is RequestLink
                    &&& f.accepted.host@ == h
                    &&& f.accepted.filename@ == name
                    &&& f.protocol@ == protocol@
                    &&& exists|t: Seq<char>|
                        is_token_text(t) && f.object_name@ == object_name_spec(t, name)
                },
                (Err(Error::User(e)), Err(e2)) => e == e2,
                _ => false,
            },
    {
        let accepted = match accept(host, scan, query) {
            Ok(a) => a,
            Err(e) => return Err(e),
        };
        let object_name = fresh_object_name(accepted.filename.as_str());
        Ok((UploadFlow { stage: Stage::AwaitingLink, accepted, object_name, protocol }, FlowAction::RequestLink))
    }

    /// Whether the upload expects `e` now.
    pub fn accepts(&self, e: &FlowEvent) -> (r: bool)
        ensures
            r == flow_accepts(self.stage, *e),
    {
        match &self.stage {
            Stage::AwaitingLink => match e {
                FlowEvent::LinkAnswer(_, _) | FlowEvent::CallFailed => true,
                _ => false,
            },
            Stage::Opening(_) => match e {
                FlowEvent::Opened { .. } => true,
                _ => false,
            },
            Stage::Relaying(r) => match e {
                FlowEvent::Relay(re) => r.accepts(re),
                _ => false,
            },
            Stage::AwaitingShare => match e {
                FlowEvent::ShareAnswer(_) | FlowEvent::CallFailed => true,
                _ => false,
            },
            Stage::Done(_) => false,
        }
    }

    /// Moves the upload on by one event, and says what to do next.
    pub fn step(self, e: FlowEvent) -> (r: (UploadFlow, FlowAction))
        requires
            flow_accepts(self.stage, e),
        ensures
            r.0.same_request(&self),
            (r.0.stage is Done) == (r.1 is Stop),
            match (self.stage, e) {
                (Stage::AwaitingLink, FlowEvent::LinkAnswer(status, body)) => if status == 200
                    && body@.len() >= 2 {
                    &&& r.0.stage matches Stage::Opening(l)
                    &&& Some(l@) == unquote_spec(body@)
                    &&& r.1 matches FlowAction::OpenUpload(l2)
                    &&& l2@ == l@
                } else {
                    r.0.stage matches Stage::Done(Err(err)) && link_error_matches(status, err)
                },
                (Stage::Opening(l), FlowEvent::Opened { closed }) => if closed {
                    &&& r.0.stage matches Stage::Done(
                        Err(Error::Internal(InternalError::BrokenUploadLink(l2))),
                    )
                    &&& l2@ == l@
                } else {
                    r.0.stage == Stage::Relaying(Relay::Reading) && r.1 == FlowAction::Relay(
                        Action::Read,
                    )
                },
                (Stage::Relaying(rs), FlowEvent::Relay(ev)) => match next_spec(rs, ev) {
                    Relay::Done(Ok(())) => {
                        &&& r.0.stage is AwaitingShare
                        &&& r.1 matches FlowAction::RequestShare(p)
                        &&& p@ == seq!['/'] + self.object_name@
                    },
                    Relay::Done(Err(x)) => r.0.stage == Stage::Done(Err::<String, UploadError>(x)),
                    n => r.0.stage == Stage::Relaying(n) && r.1 == FlowAction::Relay(action_of(n)),
                },
                (Stage::AwaitingShare, FlowEvent::ShareAnswer(body)) => match finish_spec(
                    link_field_of(body@),
                    self.protocol@,
                    self.accepted.host@,
                    self.accepted.filename@,
                ) {
                    Some(url) => r.0.stage matches Stage::Done(Ok(u)) && u@ == url,
                    None => r.0.stage matches Stage::Done(
                        Err(Error::Internal(InternalError::MalformedShareLink(_))),
                    ),
                },
                (_, FlowEvent::CallFailed) => r.0.stage == Stage::Done(
                    Err::<String, UploadError>(Error::Internal(InternalError::Transport)),
                ),
                _ => false,
            },
    {
        let UploadFlow { stage, accepted, object_name, protocol } = self;
        let (stage, action) = match stage {
            Stage::AwaitingLink => match e {
                FlowEvent::LinkAnswer(status, body) => match upload_link(status, body) {
                    Ok(link) => {
                        let out = link.clone();
                        (Stage::Opening(link), FlowAction::OpenUpload(out))
                    },
                    Err(err) => (Stage::Done(Err(err)), FlowAction::Stop),
                },
                _ => (Stage::Done(Err(Error::Internal(InternalError::Transport))), FlowAction::Stop),
            },
            Stage::Opening(link) => match e {
                FlowEvent::Opened { closed } => if closed {
                    (
                        Stage::Done(Err(Error::Internal(InternalError::BrokenUploadLink(link)))),
                        FlowAction::Stop,
                    )
                } else {
                    (Stage::Relaying(Relay::Reading), FlowAction::Relay(Action::Read))
                },
                _ => (Stage::Done(Err(Error::Internal(InternalError::Transport))), FlowAction::Stop),
            },
            Stage::Relaying(rs) => match e {
                FlowEvent::Relay(ev) => {
                    let (n, a) = rs.step(ev);
                    match n {
                        Relay::Done(Ok(())) => (
                            Stage::AwaitingShare,
                            FlowAction::RequestShare(share_path(object_name.as_str())),
                        ),
                        Relay::Done(Err(x)) => (Stage::Done(Err(x)), FlowAction::Stop),
                        n => (Stage::Relaying(n), FlowAction::Relay(a)),
                    }
                },
                _ => (Stage::Done(Err(Error::Internal(InternalError::Transport))), FlowAction::Stop),
            },
            Stage::AwaitingShare => match e {
                FlowEvent::ShareAnswer(body) => (
                    Stage::Done(
                        finish_from_response(
                            body,
                            protocol.as_str(),
                            accepted.host.as_str(),
                            accepted.filename.as_str(),
                        ),
                    ),
                    FlowAction::Stop,
                ),
                _ => (Stage::Done(Err(Error::Internal(InternalError::Transport))), FlowAction::Stop),
            },
            Stage::Done(r) => (Stage::Done(r), FlowAction::Stop),
        };
        (UploadFlow { stage, accepted, object_name, protocol }, action)
    }
}

/// An upload that is over takes no more events, so it makes no further
/// backend call: it ends in exactly one outcome, a public link or an error.
pub proof fn lemma_finished_upload_is_final(outcome: Result<String, UploadError>, e: FlowEvent)
    ensures
        !flow_accepts(Stage::Done(outcome), e),
{
}

} // verus!
