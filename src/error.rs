use fantoccini::error::CmdError;
use std::num::ParseIntError;

use vstd::prelude::*;

verus! {

#[verifier::external_type_specification]
#[verifier::external_body]
pub struct ExCmdError(CmdError);

#[verifier::external_type_specification]
#[verifier::external_body]
pub struct ExParseIntError(ParseIntError);

#[verifier::external_type_specification]
#[verifier::external_body]
pub struct ExChronoParseError(chrono::ParseError);

/// A fault of the browser session itself, common to every flow.
#[derive(Debug)]
pub enum SumsClientError {
    /// A WebDriver command failed.
    WebDriverCmdError(CmdError),
    /// The wait for the dashboard to load ran out of time.
    NavigationTimeout,
    /// The driver answered a command with a reply of the wrong kind.
    UnexpectedReply,
    /// The session's browser was already released.
    SessionClosed,
}

/// Why authentication did not succeed.
#[derive(Debug)]
pub enum SumsClientAuthError {
    /// The login flow itself broke.
    SumsClientError(SumsClientError),
    /// The login page reported an error, with the message it showed.
    AuthFailedError(String),
}

/// Why the member list could not be read.
#[derive(Debug)]
pub enum SumsClientMembersError {
    /// The navigation or the reading of the table broke.
    SumsClientError(SumsClientError),
    /// A student ID cell did not hold an unsigned integer.
    ParseIntError(ParseIntError),
    /// A date cell did not hold a date in the expected format.
    ChronoParseError(chrono::ParseError),
    /// A row had fewer cells than a member record needs; the number it had.
    MissingCellError(usize),
}

} // verus!
