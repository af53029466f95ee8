//! Logging in from a device: what the login service answers, and what the
//! client does with the answer.

use vstd::prelude::*;
use vstd::string::*;
use crate::text::text_eq;

verus! {

/// What the login service hands out when a login starts.
#[derive(Debug, Clone, PartialEq, Eq)]
pub struct DeviceFlowInit {
    pub device_code: String,
    pub user_code: String,
    pub verification_uri: String,
    /// The seconds to wait between two polls.
    pub interval: u64,
}

/// One answer to a poll: the status is `pending`, `verified` or `expired`.
#[derive(Debug, Clone, PartialEq, Eq)]
pub struct PollResponse {
    pub status: String,
    pub token: Option<String>,
    pub message: Option<String>,
}

/// The mathematical value of a [`PollResponse`].
pub struct PollResponseView {
    pub status: Seq<char>,
    pub token: Option<Seq<char>>,
    pub message: Option<Seq<char>>,
}

impl View for PollResponse {
    type V = PollResponseView;

    open spec fn view(&self) -> PollResponseView {
        PollResponseView {
            status: self.status@,
            token: self.token.deep_view(),
            message: self.message.deep_view(),
        }
    }
}

/// What the client does after a poll.
#[derive(Debug, Clone, PartialEq, Eq)]
pub enum LoginStep {
    /// The login succeeded: keep the token.
    Store { token: String },
    /// The code has expired: give up.
    GiveUp,
    /// Nothing is decided yet: poll again.
    Wait,
}

/// The mathematical value of a [`LoginStep`].
pub enum LoginStepView {
    Store { token: Seq<char> },
    GiveUp,
    Wait,
}

impl View for LoginStep {
    type V = LoginStepView;

    open spec fn view(&self) -> LoginStepView {
        match self {
            LoginStep::Store { token } => LoginStepView::Store { token: token@ },
            LoginStep::GiveUp => LoginStepView::GiveUp,
            LoginStep::Wait => LoginStepView::Wait,
        }
    }
}

/// What an answer to a poll asks of the client. A `verified` answer that
/// carries no token decides nothing.
pub open spec fn step_after(response: PollResponseView) -> LoginStepView {
    if response.status == "verified"@ {
        match response.token {
            Some(token) => LoginStepView::Store { token },
            None => LoginStepView::Wait,
        }
    } else if response.status == "expired"@ {
        LoginStepView::GiveUp
    } else {
        LoginStepView::Wait
    }
}

impl PollResponse {
    /// The answer that stands for a device code which the service does not
    /// know: the code has expired.
    pub fn expired() -> (response: PollResponse)
        ensures
            response@ == (PollResponseView { status: "expired"@, token: None, message: None }),
    {
        PollResponse { status: String::from_str("expired"), token: None, message: None }
    }

    /// What the client does after this answer.
    pub fn next_step(&self) -> (step: LoginStep)
        ensures
            step@ == step_after(self@),
    {
        if text_eq(self.status.as_str(), "verified") {
            match &self.token {
                Some(token) => LoginStep::Store { token: token.clone() },
                None => LoginStep::Wait,
            }
        } else if text_eq(self.status.as_str(), "expired") {
            LoginStep::GiveUp
        } else {
            LoginStep::Wait
        }
    }
}

/// What came back from the login service on a poll.
#[derive(Debug, Clone, PartialEq, Eq)]
pub enum PollReply {
    /// The service does not know the device code.
    NotFound,
    /// The service refused the poll; the body of its answer may still
    /// name a status and a message.
    Refused { status: Option<String>, message: Option<String> },
    /// The service answered the poll.
    Answered(PollResponse),
}

/// The mathematical value of a [`PollReply`].
pub enum PollReplyView {
    NotFound,
    Refused { status: Option<Seq<char>>, message: Option<Seq<char>> },
    Answered(PollResponseView),
}

impl View for PollReply {
    type V = PollReplyView;

    open spec fn view(&self) -> PollReplyView {
        match self {
            PollReply::NotFound => PollReplyView::NotFound,
            PollReply::Refused { status, message } => PollReplyView::Refused {
                status: status.deep_view(),
                message: message.deep_view(),
            },
            PollReply::Answered(response) => PollReplyView::Answered(response@),
        }
    }
}

/// The answer that a reply stands for, if it stands for one: an unknown
/// code has expired; a refusal that names a status is an answer with
/// that status and no token; a refusal without a status is none.
pub open spec fn answer_of(reply: PollReplyView) -> Option<PollResponseView> {
    match reply {
        PollReplyView::NotFound => Some(
            PollResponseView { status: "expired"@, token: None, message: None },
        ),
        PollReplyView::Refused { status, message } => match status {
            Some(status) => Some(PollResponseView { status, token: None, message }),
            None => None,
        },
        PollReplyView::Answered(response) => Some(response),
    }
}

impl DeepView for PollResponse {
    type V = PollResponseView;

    open spec fn deep_view(&self) -> PollResponseView {
        self.view()
    }
}

/// The answer that a reply of the login service stands for, if it
/// stands for one.
pub fn interpret_reply(reply: PollReply) -> (answer: Option<PollResponse>)
    ensures
        answer.deep_view() == answer_of(reply@),
{
    match reply {
        PollReply::NotFound => Some(PollResponse::expired()),
        PollReply::Refused { status, message } => match status {
            Some(status) => Some(PollResponse { status, token: None, message }),
            None => None,
        },
        PollReply::Answered(response) => Some(response),
    }
}

} // verus!
