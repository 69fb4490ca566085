use vstd::prelude::*;

use crate::numfmt::{spec_udec, u64_dec};

verus! {

/// Which fetch or submission a response answers.
#[derive(Clone, Copy, PartialEq, Eq, Structural, Debug)]
pub enum ResponseType {
    Domains,
    Lists,
    Members,
    Messages,
    Popup,
}

/// The outcome of one outbound call, as the dispatcher observed it:
/// either a reply with its numeric status, or no reply at all.
pub enum HttpOutcome {
    Reply { code: u16, reason: String, body: String },
    Failure { description: String },
}

/// What a body is replaced with when the call came back without a 200 status.
pub open spec fn spec_placeholder() -> Seq<char> {
    "Error (see status bar below for details)"@
}

/// The status line of a reply: the numeric code, a colon, the reason phrase.
pub open spec fn spec_status_line(code: u16, reason: Seq<char>) -> Seq<char> {
    spec_udec(code as nat) + ": "@ + reason
}

/// One delivered response: the kind it answers, the status line shown to the
/// operator, and the body text kept for parsing.
pub struct Response {
    pub response_type: ResponseType,
    pub status: String,
    pub text: String,
}

impl Clone for Response {
    fn clone(&self) -> (r: Self)
        ensures
            r == *self,
    {
        Response {
            response_type: self.response_type,
            status: self.status.clone(),
            text: self.text.clone(),
        }
    }
}

impl Response {
    pub fn new(response_type: ResponseType, status: String, text: String) -> (r: Response)
        ensures
            r == (Response { response_type, status, text }),
    {
        Response { response_type, status, text }
    }

    /// Folds one call outcome into a response: a transport failure keeps its
    /// description as the status and an empty body; a reply other than 200
    /// keeps its status line and a placeholder body; a 200 reply keeps both
    /// its status line and its body.
    pub fn from_outcome(response_type: ResponseType, outcome: HttpOutcome) -> (r: Response)
        ensures
            r.response_type == response_type,
            (match outcome {
                HttpOutcome::Failure { description } => {
                    &&& r.status == description
                    &&& r.text@ == Seq::<char>::empty()
                },
                HttpOutcome::Reply { code, reason, body } => {
                    &&& r.status@ == spec_status_line(code, reason@)
                    &&& (code == 200 ==> r.text == body)
                    &&& (code != 200 ==> r.text@ == spec_placeholder())
                },
            }),
    {
        match outcome {
            HttpOutcome::Failure { description } => Response {
                response_type,
                status: description,
                text: String::new(),
            },
            HttpOutcome::Reply { code, reason, body } => {
                let mut status = u64_dec(code as u64);
                status.append(": ");
                status.append(reason.as_str());
                let text = if code == 200 {
                    body
                } else {
                    String::from_str("Error (see status bar below for details)")
                };
                Response { response_type, status, text }
            },
        }
    }

    pub fn response_type(&self) -> (r: ResponseType)
        ensures
            r == self.response_type,
    {
        self.response_type
    }

    pub fn text(&self) -> (r: String)
        ensures
            r == self.text,
    {
        self.text.clone()
    }

    pub fn status(&self) -> (r: String)
        ensures
            r == self.status,
    {
        self.status.clone()
    }
}

} // verus!
