//! Why an onboarding failed.
use crate::text::join;
use vstd::prelude::*;

verus! {

/// Errors from the connect orchestration.
#[derive(Debug)]
pub enum ConnectError {
    Http(reqwest::Error),
    Io(std::io::Error),
    /// The device code expired or was never issued.
    CodeExpired,
    /// The approval window elapsed before the person finished in the browser.
    Timeout,
    /// The exchange succeeded but carried no device credential.
    NoCredential,
    /// The engine never became reachable after spawn.
    EngineUnreachable,
}

impl From<reqwest::Error> for ConnectError {
    fn from(e: reqwest::Error) -> (error: Self) {
        ConnectError::Http(e)
    }
}

impl vstd::std_specs::convert::FromSpecImpl<reqwest::Error> for ConnectError {
    open spec fn obeys_from_spec() -> bool {
        true
    }

    open spec fn from_spec(e: reqwest::Error) -> Self {
        ConnectError::Http(e)
    }
}

impl From<std::io::Error> for ConnectError {
    fn from(e: std::io::Error) -> (error: Self) {
        ConnectError::Io(e)
    }
}

impl vstd::std_specs::convert::FromSpecImpl<std::io::Error> for ConnectError {
    open spec fn obeys_from_spec() -> bool {
        true
    }

    open spec fn from_spec(e: std::io::Error) -> Self {
        ConnectError::Io(e)
    }
}

impl ConnectError {
    /// What the error tells the person, where `detail` is what the underlying
    /// error says of itself.
    pub open spec fn message_text(self, detail: Seq<char>) -> Seq<char> {
        match self {
            ConnectError::Http(_) => "network error: "@ + detail,
            ConnectError::Io(_) => "spawn error: "@ + detail,
            ConnectError::CodeExpired => "the approval code expired — please try again"@,
            ConnectError::Timeout => "timed out waiting for approval in the browser"@,
            ConnectError::NoCredential => "approval returned no credential"@,
            ConnectError::EngineUnreachable => "the engine did not come up in time"@,
        }
    }

    /// Whether `detail` is what the underlying error says of itself; an error
    /// without an underlying one has no such text, so any will do.
    pub open spec fn has_detail(self, detail: Seq<char>) -> bool {
        match self {
            ConnectError::Http(e) => exists|shown: String|
                vstd::string::to_string_from_display_ensures::<reqwest::Error>(&e, shown)
                    && #[trigger] shown@ == detail,
            ConnectError::Io(e) => exists|shown: String|
                vstd::string::to_string_from_display_ensures::<std::io::Error>(&e, shown)
                    && #[trigger] shown@ == detail,
            _ => true,
        }
    }

    /// The message for the person, given what the underlying error says of
    /// itself.
    pub fn message_with(&self, detail: &str) -> (message: String)
        ensures
            message@ == self.message_text(detail@),
    {
        match self {
            ConnectError::Http(_) => join("network error: ", detail),
            ConnectError::Io(_) => join("spawn error: ", detail),
            ConnectError::CodeExpired => "the approval code expired — please try again".to_owned(),
            ConnectError::Timeout => "timed out waiting for approval in the browser".to_owned(),
            ConnectError::NoCredential => "approval returned no credential".to_owned(),
            ConnectError::EngineUnreachable => "the engine did not come up in time".to_owned(),
        }
    }

    /// The message for the person.
    pub fn message(&self) -> (message: String)
        ensures
            exists|detail: Seq<char>| #[trigger]
                self.has_detail(detail) && message@ == self.message_text(detail),
    {
        let detail: String = match self {
            ConnectError::Http(e) => e.to_string(),
            ConnectError::Io(e) => e.to_string(),
            _ => String::new(),
        };
        assert(self.has_detail(detail@));
        self.message_with(detail.as_str())
    }
}

/// A failed call is an HTTP error and a failed start an I/O error, each with the
/// underlying error itself.
pub proof fn law_errors_keep_their_cause(
    http: reqwest::Error,
    io: std::io::Error,
    of_http: ConnectError,
    of_io: ConnectError,
)
    requires
        call_ensures(<ConnectError as From<reqwest::Error>>::from, (http,), of_http),
        call_ensures(<ConnectError as From<std::io::Error>>::from, (io,), of_io),
    ensures
        of_http == ConnectError::Http(http),
        of_io == ConnectError::Io(io),
{
}

/// Each error has its own message; one with an underlying error ends with what
/// that error says, whole.
pub proof fn law_messages(error: &ConnectError, detail: &str, message: String)
    requires
        call_ensures(ConnectError::message_with, (error, detail), message),
    ensures
        error is Http ==> message@ == "network error: "@ + detail@,
        error is Io ==> message@ == "spawn error: "@ + detail@,
        error is CodeExpired ==> message@ == "the approval code expired — please try again"@,
        error is Timeout ==> message@ == "timed out waiting for approval in the browser"@,
        error is NoCredential ==> message@ == "approval returned no credential"@,
        error is EngineUnreachable ==> message@ == "the engine did not come up in time"@,
{
}

/// The message of an error with an underlying one ends with that error's display
/// text; the others are fixed.
pub proof fn law_message_shows_its_cause(error: &ConnectError, message: String)
    requires
        call_ensures(ConnectError::message, (error,), message),
    ensures
        error matches ConnectError::Http(e) ==> exists|shown: String|
            vstd::string::to_string_from_display_ensures::<reqwest::Error>(e, shown) && message@
                == "network error: "@ + #[trigger] shown@,
        error matches ConnectError::Io(e) ==> exists|shown: String|
            vstd::string::to_string_from_display_ensures::<std::io::Error>(e, shown) && message@
                == "spawn error: "@ + #[trigger] shown@,
        error is CodeExpired ==> message@ == "the approval code expired — please try again"@,
        error is Timeout ==> message@ == "timed out waiting for approval in the browser"@,
        error is NoCredential ==> message@ == "approval returned no credential"@,
        error is EngineUnreachable ==> message@ == "the engine did not come up in time"@,
{
}


} // verus!
