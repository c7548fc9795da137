//! Errors of calls to a HelixDB HTTP endpoint.

use vstd::prelude::*;
use vstd::string::{to_string_from_display_ensures, StringExecFns};

use crate::text::{push_decimal, spec_decimal};

verus! {

/// Errors that can happen when calling a HelixDB HTTP endpoint.
///
/// reqwest folds transport failures and JSON decode failures into the same
/// [`reqwest::Error`] type, so the [`HelixError::Http`] variant carries both.
/// [`HelixError::Status`] is the explicit non-2xx case where the helix instance
/// answered the request but rejected it.
#[derive(Debug)]
pub enum HelixError {
    /// HTTP layer error: connection failure, transport issue, or JSON decode failure.
    Http(reqwest::Error),
    /// HelixDB returned a non-2xx status; carries the status code and body text.
    Status {
        /// HTTP status code returned by the helix instance.
        status: u16,
        /// Body text returned by the helix instance.
        body: String,
    },
}

/// The message of a [`HelixError::Status`] error.
pub open spec fn status_message(status: u16, body: Seq<char>) -> Seq<char> {
    "helix endpoint returned status "@ + spec_decimal(status as nat) + ": "@ + body
}

impl HelixError {
    /// True when this is the [`HelixError::Http`] variant.
    pub fn is_http(&self) -> (r: bool)
        ensures
            r == (self is Http),
    {
        match self {
            HelixError::Http(_) => true,
            HelixError::Status { .. } => false,
        }
    }

    /// True when this is the [`HelixError::Status`] variant.
    pub fn is_status(&self) -> (r: bool)
        ensures
            r == (self is Status),
    {
        match self {
            HelixError::Http(_) => false,
            HelixError::Status { .. } => true,
        }
    }

    /// The human-readable message of this error.
    ///
    /// For [`HelixError::Http`] the text after the prefix is the `to_string` of
    /// the underlying reqwest error, whose `Display` text is not looked into.
    pub fn to_string(&self) -> (s: String)
        ensures
            self matches HelixError::Status { status, body } ==> s@ == status_message(*status, body@),
            self matches HelixError::Http(e) ==> exists|t: String|
                #[trigger] to_string_from_display_ensures::<reqwest::Error>(e, t) && s@
                    == "HTTP error talking to helix instance: "@ + t@,
    {
        match self {
            HelixError::Http(e) => {
                let mut s = String::from_str("HTTP error talking to helix instance: ");
                let t = e.to_string();
                s.append(t.as_str());
                assert(s@ == "HTTP error talking to helix instance: "@ + t@);
                s
            },
            HelixError::Status { status, body } => {
                let mut s = String::from_str("helix endpoint returned status ");
                push_decimal(&mut s, *status as u128);
                s.append(": ");
                s.append(body.as_str());
                assert(s@ =~= status_message(*status, body@));
                s
            },
        }
    }
}

impl From<reqwest::Error> for HelixError {
    fn from(e: reqwest::Error) -> (r: HelixError) {
        HelixError::Http(e)
    }
}

impl vstd::std_specs::convert::FromSpecImpl<reqwest::Error> for HelixError {
    open spec fn obeys_from_spec() -> bool {
        true
    }

    open spec fn from_spec(v: reqwest::Error) -> HelixError {
        HelixError::Http(v)
    }
}

/// Exactly one of [`HelixError::is_http`] and [`HelixError::is_status`] holds of every
/// error.
pub proof fn law_error_kind_exclusive(e: HelixError)
    ensures
        (e is Http) != (e is Status),
{
}

} // verus!
