//! Talking to the judge: what its answers mean, and how a session is set
//! up. The requests themselves are made elsewhere.

use crate::text::{contains, decode_lossy, lossy_text, occurs_in};
use vstd::prelude::*;
use vstd::string::StringExecFns;

verus! {

/// Why a file could not be fetched.
#[derive(Debug, PartialEq, Eq)]
pub enum Error {
    /// The transfer failed, for the given reason.
    CurlError(String),
    /// The file could not be written, for the given reason.
    IoError(String),
    /// The judge asks to sign in first.
    AuthError,
}

impl Error {
    /// The sentence that tells the user of the error.
    pub open spec fn text(&self) -> Seq<char> {
        match self {
            Error::CurlError(cause) => "Connection error: "@ + cause@,
            Error::IoError(cause) => "IO error: "@ + cause@,
            Error::AuthError => "The requested content isn't publicly available"@,
        }
    }

    /// The sentence that tells the user of the error.
    pub fn message(&self) -> (message: String)
        ensures
            message@ == self.text(),
    {
        match self {
            Error::CurlError(cause) => {
                let mut message = "Connection error: ".to_owned();
                message.append(cause.as_str());
                message
            },
            Error::IoError(cause) => {
                let mut message = "IO error: ".to_owned();
                message.append(cause.as_str());
                message
            },
            Error::AuthError => "The requested content isn't publicly available".to_owned(),
        }
    }
}

/// The address that signs a user in.
pub const SIGN_IN_URL: &'static str = "https://jutge.org/";

/// The address of a page that only a signed-in user sees.
pub const DASHBOARD_URL: &'static str = "https://jutge.org/dashboard";

/// The name of the file that keeps the session between runs.
pub const COOKIE_STORE: &'static str = "cookies.jar";

/// What the judge writes on the page it shows instead, to a user who is not
/// signed in.
pub const SIGN_IN_PROMPT: &'static str = "Did you sign in?";

/// Whether the judge sent its sign-in page in place of a file: it did when
/// what came is announced as HTML.
pub fn is_sign_in_page(content_type: Option<&str>) -> (refused: bool)
    ensures
        refused == (content_type matches Some(announced) && occurs_in("html"@, announced@)),
{
    match content_type {
        Some(announced) => contains(announced, "html"),
        None => false,
    }
}

/// Whether the page only a signed-in user sees came: it did unless the
/// judge asks, on what came, whether the user signed in.
pub fn is_signed_in(dashboard: &Vec<u8>) -> (signed_in: bool)
    ensures
        signed_in == !occurs_in(SIGN_IN_PROMPT@, lossy_text(dashboard@)),
{
    let page = decode_lossy(dashboard);
    !contains(page.as_str(), SIGN_IN_PROMPT)
}

/// How a session with the judge stands.
#[derive(PartialEq, Eq, Structural, Debug, Clone, Copy)]
pub enum Session {
    /// The judge is to be asked whether the user is signed in.
    Check,
    /// The sign-in form is to be sent.
    SignIn,
    /// The judge is to be asked whether signing in went well.
    Confirm,
    /// The session of an earlier run is still good.
    Reused,
    /// Signing in went well.
    SignedIn,
    /// The judge did not accept the account; the user is to be warned.
    Refused,
    /// There is no account; only what is public can be had.
    Anonymous,
}

impl Session {
    /// Nothing is left to do.
    pub open spec fn settled(self) -> bool {
        self is Reused || self is SignedIn || self is Refused || self is Anonymous
    }
}

/// What the judge answered in a step of setting the session up.
#[derive(PartialEq, Eq, Structural, Debug, Clone, Copy)]
pub enum Answer {
    /// The page only a signed-in user sees was asked for: whether it came.
    Dashboard { signed_in: bool },
    /// The form was sent.
    FormSent,
}

/// The state that follows a state and the judge's answer in it. A session
/// that is still good is used again. Without one, the user is signed in
/// with the account if there is an account and its form can be built, and
/// the judge is asked again to see whether that went well.
pub open spec fn next_session(state: Session, answer: Answer, has_form: bool) -> Session {
    match (state, answer) {
        (Session::Check, Answer::Dashboard { signed_in }) => if signed_in {
            Session::Reused
        } else if has_form {
            Session::SignIn
        } else {
            Session::Anonymous
        },
        (Session::SignIn, Answer::FormSent) => Session::Confirm,
        (Session::Confirm, Answer::Dashboard { signed_in }) => if signed_in {
            Session::SignedIn
        } else {
            Session::Refused
        },
        _ => state,
    }
}

/// Once a session is settled, no answer changes it.
pub proof fn lemma_settled_session_stays(state: Session, answer: Answer, has_form: bool)
    requires
        state.settled(),
    ensures
        next_session(state, answer, has_form) == state,
{
}

/// Takes the setting up of a session one step further.
pub fn advance_session(state: Session, answer: Answer, has_form: bool) -> (next: Session)
    ensures
        next == next_session(state, answer, has_form),
{
    match state {
        Session::Check => match answer {
            Answer::Dashboard { signed_in } => if signed_in {
                Session::Reused
            } else if has_form {
                Session::SignIn
            } else {
                Session::Anonymous
            },
            _ => state,
        },
        Session::SignIn => match answer {
            Answer::FormSent => Session::Confirm,
            _ => state,
        },
        Session::Confirm => match answer {
            Answer::Dashboard { signed_in } => if signed_in {
                Session::SignedIn
            } else {
                Session::Refused
            },
            _ => state,
        },
        _ => state,
    }
}

} // verus!
