//! A verified core for scraping a society's member roster out of a students'
//! union dashboard through a remote browser.
//!
//! The browser itself is driven from outside the library: the flows in
//! `flow` say which command to issue next and how to read each reply, the
//! functions in `cells` turn the table's cell text into typed records, and
//! `session` keeps track of when the browser must be torn down.

pub mod cells;
pub mod error;
pub mod flow;
pub mod member;
pub mod session;
pub mod site;

pub use cells::{extract_members, parse_row, RowFault, CELLS_PER_ROW, DATE_FORMAT};
pub use error::{SumsClientAuthError, SumsClientError, SumsClientMembersError};
pub use flow::{AuthFlow, Command, MembersFlow, Reply, AUTH_STEPS, MEMBERS_STEPS};
pub use member::{CalendarDate, Member, MemberType, StudentId};
pub use session::{Outcome, Session, SessionEvent};
pub use site::{decimal_text, members_url, Locator, SiteConfig};
