use fantoccini::error::CmdError;

use vstd::prelude::*;

use crate::cells::{extract_members, is_roster_of, roster};
use crate::error::{SumsClientAuthError, SumsClientError, SumsClientMembersError};
use crate::member::Member;
use crate::site::{members_path, members_url, Locator, SiteConfig};

verus! {

/// One command for the browser driver.
#[derive(Debug)]
pub enum Command {
    /// Load a URL.
    Goto(String),
    /// Find an element and click it.
    Click(Locator),
    /// Find a form; the next field and submit commands act on it.
    OpenForm(Locator),
    /// Set a field of the open form to a value.
    SetField(Locator, String),
    /// Submit the open form.
    SubmitForm,
    /// Find an element and read its text.
    ReadText(Locator),
    /// Wait, for a bounded time, until the browser's URL is the given one.
    WaitForUrl(String),
    /// Run a script in the page.
    Execute(String),
    /// Find a select element and pick the option with the given value.
    SelectByValue(Locator, String),
    /// Find a table body, then the text of every cell of every row, in
    /// document order: body, row and cell locators.
    ReadTable(Locator, Locator, Locator),
}

/// What the driver reports back after a command.
#[derive(Debug)]
pub enum Reply {
    /// The command succeeded and has nothing to hand back.
    Done,
    /// The text that was read.
    Text(String),
    /// The cell text of each row that was read.
    Table(Vec<Vec<String>>),
    /// The element to act on was not in the page.
    Missing(CmdError),
    /// Any other failure of the command.
    Failed(CmdError),
    /// The wait ran out of time.
    TimedOut,
}

/// The fault a reply reports, for a command that had to answer `Done`.
pub open spec fn reply_fault(reply: Reply) -> SumsClientError {
    match reply {
        Reply::Missing(e) => SumsClientError::WebDriverCmdError(e),
        Reply::Failed(e) => SumsClientError::WebDriverCmdError(e),
        Reply::TimedOut => SumsClientError::NavigationTimeout,
        _ => SumsClientError::UnexpectedReply,
    }
}

fn fault_of_reply(reply: Reply) -> (r: SumsClientError)
    ensures
        r == reply_fault(reply),
{
    match reply {
        Reply::Missing(e) => SumsClientError::WebDriverCmdError(e),
        Reply::Failed(e) => SumsClientError::WebDriverCmdError(e),
        Reply::TimedOut => SumsClientError::NavigationTimeout,
        _ => SumsClientError::UnexpectedReply,
    }
}

/// Number of commands of the login flow.
pub const AUTH_STEPS: usize = 8;

/// The login flow's command at each position: open the site, open the account
/// menu, pick the student login, fill and submit the login form, then look
/// for the login error message.
pub open spec fn auth_command(site: SiteConfig, username: String, password: String, pos: int) -> Command {
    if pos == 0 {
        Command::Goto(site.base_url)
    } else if pos == 1 {
        Command::Click(site.menu_trigger)
    } else if pos == 2 {
        Command::Click(site.student_login)
    } else if pos == 3 {
        Command::OpenForm(site.login_form)
    } else if pos == 4 {
        Command::SetField(site.username_field, username)
    } else if pos == 5 {
        Command::SetField(site.password_field, password)
    } else if pos == 6 {
        Command::SubmitForm
    } else {
        Command::ReadText(site.login_error)
    }
}

/// How the login flow reads the reply to its command at `pos`: `None` to go
/// on, or the outcome. Every command but the last must succeed. The last one
/// looks for the error message: finding it means the credentials were
/// refused, and only its absence means the login went through.
pub open spec fn auth_settle(pos: int, reply: Reply) -> Option<Result<(), SumsClientAuthError>> {
    if pos < AUTH_STEPS - 1 {
        if reply is Done {
            None
        } else {
            Some(Err(SumsClientAuthError::SumsClientError(reply_fault(reply))))
        }
    } else {
        match reply {
            Reply::Text(t) => Some(Err(SumsClientAuthError::AuthFailedError(t))),
            Reply::Missing(_) => Some(Ok(())),
            _ => Some(Err(SumsClientAuthError::SumsClientError(reply_fault(reply)))),
        }
    }
}

/// The outcome of the login flow, from position `pos`, given the replies
/// to its commands in order; `None` while it waits for more.
pub open spec fn auth_run(pos: nat, replies: Seq<Reply>) -> Option<Result<(), SumsClientAuthError>>
    decreases replies.len(),
{
    if replies.len() == 0 {
        None
    } else {
        match auth_settle(pos as int, replies[0]) {
            None => auth_run(pos + 1, replies.skip(1)),
            Some(r) => Some(r),
        }
    }
}

/// The login flow: logs a student in through the site's login form.
pub struct AuthFlow {
    pub username: String,
    pub password: String,
    pub pos: usize,
}

impl AuthFlow {
    pub fn new(username: &str, password: &str) -> (r: AuthFlow)
        ensures
            r.username@ == username@,
            r.password@ == password@,
            r.pos == 0,
    {
        AuthFlow {
            username: String::from_str(username),
            password: String::from_str(password),
            pos: 0,
        }
    }

    /// The command to issue now.
    pub fn command(&self, site: &SiteConfig) -> (c: Command)
        requires
            self.pos < AUTH_STEPS,
        ensures
            c == auth_command(*site, self.username, self.password, self.pos as int),
    {
        if self.pos == 0 {
            Command::Goto(site.base_url.clone())
        } else if self.pos == 1 {
            Command::Click(site.menu_trigger.duplicate())
        } else if self.pos == 2 {
            Command::Click(site.student_login.duplicate())
        } else if self.pos == 3 {
            Command::OpenForm(site.login_form.duplicate())
        } else if self.pos == 4 {
            Command::SetField(site.username_field.duplicate(), self.username.clone())
        } else if self.pos == 5 {
            Command::SetField(site.password_field.duplicate(), self.password.clone())
        } else if self.pos == 6 {
            Command::SubmitForm
        } else {
            Command::ReadText(site.login_error.duplicate())
        }
    }

    /// Takes the reply to the current command: `None` when the flow goes on
    /// to its next command, else its outcome.
    pub fn on_reply(&mut self, reply: Reply) -> (r: Option<Result<(), SumsClientAuthError>>)
        requires
            old(self).pos < AUTH_STEPS,
        ensures
            r == auth_settle(old(self).pos as int, reply),
            final(self).username == old(self).username,
            final(self).password == old(self).password,
            r is None ==> final(self).pos == old(self).pos + 1,
            r is Some ==> final(self).pos == AUTH_STEPS,
    {
        if self.pos < AUTH_STEPS - 1 {
            if let Reply::Done = reply {
                self.pos = self.pos + 1;
                None
            } else {
                self.pos = AUTH_STEPS;
                Some(Err(SumsClientAuthError::SumsClientError(fault_of_reply(reply))))
            }
        } else {
            self.pos = AUTH_STEPS;
            match reply {
                Reply::Text(t) => Some(Err(SumsClientAuthError::AuthFailedError(t))),
                Reply::Missing(_) => Some(Ok(())),
                _ => Some(Err(SumsClientAuthError::SumsClientError(fault_of_reply(reply)))),
            }
        }
    }
}

/// Number of commands of the member-list flow.
pub const MEMBERS_STEPS: usize = 8;

/// Position of the command that adds the show-all page size.
pub const EXPAND_STEP: usize = 5;

/// Position of the command that selects the show-all page size.
pub const SELECT_STEP: usize = 6;

/// Position of the command that reads the table.
pub const READ_STEP: usize = 7;

/// The member-list flow's command at each position: go to the dashboard
/// through the account menu and wait for it, open the group's member page,
/// make every row show on one page, then read the table.
pub open spec fn members_command(site: SiteConfig, url: String, pos: int) -> Command {
    if pos == 0 {
        Command::Goto(site.base_url)
    } else if pos == 1 {
        Command::Click(site.menu_trigger)
    } else if pos == 2 {
        Command::Click(site.dashboard_link)
    } else if pos == 3 {
        Command::WaitForUrl(site.dashboard_url)
    } else if pos == 4 {
        Command::Goto(url)
    } else if pos == 5 {
        Command::Execute(site.show_all_script)
    } else if pos == 6 {
        Command::SelectByValue(site.page_size_select, site.show_all_value)
    } else {
        Command::ReadTable(site.table_body, site.table_row, site.table_cell)
    }
}

/// How the member-list flow reads a reply at a position.
pub enum Settle {
    /// Go on to the next command.
    Next,
    /// Stop with this fault.
    Fail(SumsClientError),
    /// Stop, turning these rows into the roster.
    Rows(Seq<Vec<String>>),
}

pub open spec fn members_settle(pos: int, reply: Reply) -> Settle {
    if pos < READ_STEP {
        if reply is Done {
            Settle::Next
        } else {
            Settle::Fail(reply_fault(reply))
        }
    } else {
        match reply {
            Reply::Table(rows) => Settle::Rows(rows@),
            _ => Settle::Fail(reply_fault(reply)),
        }
    }
}

/// Where the member-list flow stands, from position `pos`, after the given
/// replies in order.
pub open spec fn members_run(pos: nat, replies: Seq<Reply>) -> Settle
    decreases replies.len(),
{
    if replies.len() == 0 {
        Settle::Next
    } else {
        match members_settle(pos as int, replies[0]) {
            Settle::Next => members_run(pos + 1, replies.skip(1)),
            s => s,
        }
    }
}

/// The member-list flow: reads the whole member table of one group.
pub struct MembersFlow {
    pub url: String,
    pub pos: usize,
}

impl MembersFlow {
    pub fn new(site: &SiteConfig, group_id: u16) -> (r: MembersFlow)
        ensures
            r.url@ == site.dashboard_url@ + members_path(group_id),
            r.pos == 0,
    {
        MembersFlow { url: members_url(site.dashboard_url.as_str(), group_id), pos: 0 }
    }

    /// The command to issue now.
    pub fn command(&self, site: &SiteConfig) -> (c: Command)
        requires
            self.pos < MEMBERS_STEPS,
        ensures
            c == members_command(*site, self.url, self.pos as int),
    {
        if self.pos == 0 {
            Command::Goto(site.base_url.clone())
        } else if self.pos == 1 {
            Command::Click(site.menu_trigger.duplicate())
        } else if self.pos == 2 {
            Command::Click(site.dashboard_link.duplicate())
        } else if self.pos == 3 {
            Command::WaitForUrl(site.dashboard_url.clone())
        } else if self.pos == 4 {
            Command::Goto(self.url.clone())
        } else if self.pos == 5 {
            Command::Execute(site.show_all_script.clone())
        } else if self.pos == 6 {
            Command::SelectByValue(site.page_size_select.duplicate(), site.show_all_value.clone())
        } else {
            Command::ReadTable(
                site.table_body.duplicate(),
                site.table_row.duplicate(),
                site.table_cell.duplicate(),
            )
        }
    }

    /// Takes the reply to the current command: `None` when the flow goes on
    /// to its next command, else the roster or the reason there is none.
    pub fn on_reply(&mut self, reply: Reply) -> (r: Option<Result<Vec<Member>, SumsClientMembersError>>)
        requires
            old(self).pos < MEMBERS_STEPS,
        ensures
            final(self).url == old(self).url,
            r is None <==> members_settle(old(self).pos as int, reply) is Next,
            r is None ==> final(self).pos == old(self).pos + 1,
            r is Some ==> final(self).pos == MEMBERS_STEPS,
            members_settle(old(self).pos as int, reply) matches Settle::Fail(f) ==> r == Some(
                Err::<Vec<Member>, SumsClientMembersError>(SumsClientMembersError::SumsClientError(f)),
            ),
            members_settle(old(self).pos as int, reply) matches Settle::Rows(rows) ==> r is Some
                && is_roster_of(r->Some_0, rows),
    {
        if self.pos < READ_STEP {
            if let Reply::Done = reply {
                self.pos = self.pos + 1;
                None
            } else {
                self.pos = MEMBERS_STEPS;
                Some(Err(SumsClientMembersError::SumsClientError(fault_of_reply(reply))))
            }
        } else {
            self.pos = MEMBERS_STEPS;
            match reply {
                Reply::Table(rows) => Some(extract_members(&rows)),
                _ => Some(Err(SumsClientMembersError::SumsClientError(fault_of_reply(reply)))),
            }
        }
    }
}

/// The login flow reaches its last command after the given number of done
/// replies, and its outcome is then read from the next reply alone.
proof fn lemma_auth_done_prefix(pos: nat, replies: Seq<Reply>)
    requires
        pos < AUTH_STEPS,
        replies.len() >= AUTH_STEPS - pos,
        forall|i: int| 0 <= i < AUTH_STEPS - 1 - pos ==> (#[trigger] replies[i]) is Done,
    ensures
        auth_run(pos, replies) == auth_settle(AUTH_STEPS - 1, replies[AUTH_STEPS - 1 - pos]),
    decreases AUTH_STEPS - pos,
{
    if pos < AUTH_STEPS - 1 {
        assert(replies[0] is Done);
        let rest = replies.skip(1);
        assert forall|i: int| 0 <= i < AUTH_STEPS - 1 - (pos + 1) implies (#[trigger] rest[i]) is Done by {
            assert(replies[i + 1] is Done);
        }
        lemma_auth_done_prefix(pos + 1, rest);
    }
}

/// The login outcome is decided by the look-up of the error message once
/// every earlier command is done: the message found means the credentials
/// were refused with its text, its absence means the login succeeded, and
/// any other fault of the look-up is a fault of the flow, never a success.
pub proof fn lemma_login_error_decides(replies: Seq<Reply>)
    requires
        replies.len() == AUTH_STEPS,
        forall|i: int| 0 <= i < AUTH_STEPS - 1 ==> (#[trigger] replies[i]) is Done,
    ensures
        replies[AUTH_STEPS - 1] matches Reply::Text(t) ==> auth_run(0, replies) == Some(
            Err::<(), SumsClientAuthError>(SumsClientAuthError::AuthFailedError(t)),
        ),
        replies[AUTH_STEPS - 1] is Missing ==> auth_run(0, replies) == Some(Ok::<(), SumsClientAuthError>(())),
        replies[AUTH_STEPS - 1] matches Reply::Failed(e) ==> auth_run(0, replies) == Some(
            Err::<(), SumsClientAuthError>(
                SumsClientAuthError::SumsClientError(SumsClientError::WebDriverCmdError(e)),
            ),
        ),
{
    lemma_auth_done_prefix(0, replies);
}

/// The login succeeds only when every command before the look-up was done
/// and the look-up found no error message.
pub proof fn lemma_login_success_needs_absent_error(pos: nat, replies: Seq<Reply>)
    requires
        pos < AUTH_STEPS,
        auth_run(pos, replies) == Some(Ok::<(), SumsClientAuthError>(())),
    ensures
        replies.len() >= AUTH_STEPS - pos,
        forall|i: int| 0 <= i < AUTH_STEPS - 1 - pos ==> (#[trigger] replies[i]) is Done,
        replies[AUTH_STEPS - 1 - pos] is Missing,
    decreases AUTH_STEPS - pos,
{
    if pos < AUTH_STEPS - 1 {
        let rest = replies.skip(1);
        lemma_login_success_needs_absent_error(pos + 1, rest);
        assert forall|i: int| 0 <= i < AUTH_STEPS - 1 - pos implies (#[trigger] replies[i]) is Done by {
            if i > 0 {
                assert(rest[i - 1] is Done);
            }
        }
        assert(replies[AUTH_STEPS - 1 - pos] == rest[AUTH_STEPS - 1 - (pos + 1)]);
    }
}

/// The member-list flow hands rows to extraction only from its last command,
/// after every earlier command was done.
proof fn lemma_rows_only_at_end(pos: nat, replies: Seq<Reply>, rows: Seq<Vec<String>>)
    requires
        pos < MEMBERS_STEPS,
        members_run(pos, replies) == Settle::Rows(rows),
    ensures
        replies.len() >= MEMBERS_STEPS - pos,
        forall|i: int| 0 <= i < READ_STEP - pos ==> (#[trigger] replies[i]) is Done,
        replies[READ_STEP - pos] matches Reply::Table(t) && t@ == rows,
    decreases MEMBERS_STEPS - pos,
{
    if pos < READ_STEP {
        let rest = replies.skip(1);
        lemma_rows_only_at_end(pos + 1, rest, rows);
        assert forall|i: int| 0 <= i < READ_STEP - pos implies (#[trigger] replies[i]) is Done by {
            if i > 0 {
                assert(rest[i - 1] is Done);
            }
        }
        assert(replies[READ_STEP - pos] == rest[READ_STEP - (pos + 1)]);
    }
}

/// The member table is read only after the script that adds the show-all
/// page size ran and that page size was selected, and the roster then has
/// one record for each row of the table, not of one page.
pub proof fn lemma_table_read_after_expansion(
    site: SiteConfig,
    url: String,
    replies: Seq<Reply>,
    rows: Seq<Vec<String>>,
)
    requires
        members_run(0, replies) == Settle::Rows(rows),
    ensures
        EXPAND_STEP < SELECT_STEP < READ_STEP,
        members_command(site, url, EXPAND_STEP as int) == Command::Execute(site.show_all_script),
        members_command(site, url, SELECT_STEP as int) == Command::SelectByValue(
            site.page_size_select,
            site.show_all_value,
        ),
        members_command(site, url, READ_STEP as int) == Command::ReadTable(
            site.table_body,
            site.table_row,
            site.table_cell,
        ),
        replies[EXPAND_STEP as int] is Done,
        replies[SELECT_STEP as int] is Done,
        replies[READ_STEP as int] matches Reply::Table(t) && t@ == rows,
        roster(rows) matches Some(m) ==> m.len() == rows.len(),
{
    lemma_rows_only_at_end(0, replies, rows);
}

} // verus!
