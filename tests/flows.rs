use fantoccini::error::CmdError;
use sums::{
    decimal_text, members_url, AuthFlow, CalendarDate, Command, Locator, MembersFlow, Reply,
    Session, SiteConfig, SumsClientAuthError, SumsClientError, SumsClientMembersError,
    AUTH_STEPS, MEMBERS_STEPS,
};

const GROUP_ID: u16 = 213;

fn fault() -> CmdError {
    CmdError::NotJson("connection reset".to_string())
}

/// Runs the login flow against scripted replies, one per command.
fn run_auth(replies: Vec<Reply>) -> (Vec<Command>, Option<Result<(), SumsClientAuthError>>) {
    let site = SiteConfig::sums();
    let mut flow = AuthFlow::new("student", "hunter2");
    let mut issued = Vec::new();
    for reply in replies {
        issued.push(flow.command(&site));
        if let Some(r) = flow.on_reply(reply) {
            return (issued, Some(r));
        }
    }
    (issued, None)
}

fn done_then(n: usize, last: Reply) -> Vec<Reply> {
    let mut v: Vec<Reply> = (0..n).map(|_| Reply::Done).collect();
    v.push(last);
    v
}

/// Runs the member-list flow against scripted replies, one per command.
fn run_members(
    replies: Vec<Reply>,
) -> (Vec<Command>, Option<Result<Vec<sums::Member>, SumsClientMembersError>>) {
    let site = SiteConfig::sums();
    let mut flow = MembersFlow::new(&site, GROUP_ID);
    let mut issued = Vec::new();
    for reply in replies {
        issued.push(flow.command(&site));
        if let Some(r) = flow.on_reply(reply) {
            return (issued, Some(r));
        }
    }
    (issued, None)
}

fn table(n: usize) -> Reply {
    Reply::Table(
        (0..n)
            .map(|i| {
                vec![
                    format!("{}", 200000 + i),
                    format!("Member {}", i),
                    "Student".to_string(),
                    "Standard".to_string(),
                    "2024-01-15".to_string(),
                ]
            })
            .collect(),
    )
}

#[test]
fn test_create_client() {
    let session = Session::new(GROUP_ID);
    assert_eq!(GROUP_ID, session.group_id);
    assert!(session.is_open());
}

#[test]
fn test_auth() {
    let (issued, r) = run_auth(done_then(AUTH_STEPS - 1, Reply::Missing(fault())));
    assert!(matches!(r, Some(Ok(()))));
    assert_eq!(issued.len(), AUTH_STEPS);
}

#[test]
fn test_members() {
    let (issued, r) = run_members(done_then(MEMBERS_STEPS - 1, table(3)));
    assert_eq!(issued.len(), MEMBERS_STEPS);
    let members = r.unwrap().unwrap();
    assert_eq!(members.len(), 3);
    assert_eq!(members[2].student_id, 200002);
    assert_eq!(members[2].date_joined, CalendarDate { year: 2024, month: 1, day: 15 });
}

#[test]
fn login_error_text_means_rejection() {
    let text = "Invalid username or password.".to_string();
    let (_, r) = run_auth(done_then(AUTH_STEPS - 1, Reply::Text(text.clone())));
    match r {
        Some(Err(SumsClientAuthError::AuthFailedError(t))) => assert_eq!(t, text),
        other => panic!("unexpected outcome {:?}", other),
    }
}

#[test]
fn fault_while_probing_is_not_success() {
    let (_, r) = run_auth(done_then(AUTH_STEPS - 1, Reply::Failed(fault())));
    assert!(matches!(
        r,
        Some(Err(SumsClientAuthError::SumsClientError(SumsClientError::WebDriverCmdError(_))))
    ));
}

#[test]
fn fault_before_probing_stops_login() {
    let (issued, r) = run_auth(done_then(2, Reply::Missing(fault())));
    assert_eq!(issued.len(), 3);
    assert!(matches!(
        r,
        Some(Err(SumsClientAuthError::SumsClientError(SumsClientError::WebDriverCmdError(_))))
    ));
}

#[test]
fn wrong_reply_kind_is_reported() {
    let (_, r) = run_auth(done_then(1, Reply::Text("x".to_string())));
    assert!(matches!(
        r,
        Some(Err(SumsClientAuthError::SumsClientError(SumsClientError::UnexpectedReply)))
    ));
}

#[test]
fn login_commands_in_order() {
    let (issued, _) = run_auth(done_then(AUTH_STEPS - 1, Reply::Missing(fault())));
    assert!(matches!(&issued[0], Command::Goto(u) if u == "https://su.nottingham.ac.uk"));
    assert!(matches!(&issued[1], Command::Click(Locator::Id(s)) if s == "userActionsInvoker"));
    assert!(matches!(&issued[2], Command::Click(Locator::XPath(_))));
    assert!(matches!(&issued[3], Command::OpenForm(Locator::XPath(_))));
    assert!(
        matches!(&issued[4], Command::SetField(Locator::Id(f), v) if f == "username" && v == "student")
    );
    assert!(
        matches!(&issued[5], Command::SetField(Locator::Id(f), v) if f == "password" && v == "hunter2")
    );
    assert!(matches!(&issued[6], Command::SubmitForm));
    assert!(matches!(&issued[7], Command::ReadText(Locator::XPath(_))));
}

#[test]
fn member_commands_expand_before_reading() {
    let (issued, _) = run_members(done_then(MEMBERS_STEPS - 1, table(0)));
    assert!(matches!(&issued[2], Command::Click(Locator::Id(s)) if s == "studentDashboardLink"));
    assert!(matches!(&issued[3], Command::WaitForUrl(u) if u == "https://student-dashboard.sums.su"));
    assert!(matches!(
        &issued[4],
        Command::Goto(u) if u == "https://student-dashboard.sums.su/groups/213/members"
    ));
    assert!(matches!(&issued[5], Command::Execute(s) if s.contains("100000")));
    assert!(matches!(&issued[6], Command::SelectByValue(Locator::Css(_), v) if v == "100000"));
    assert!(matches!(&issued[7], Command::ReadTable(_, Locator::Css(r), Locator::Css(c)) if r == "tr" && c == "td"));
}

#[test]
fn whole_table_is_read_after_expansion() {
    let (issued, r) = run_members(done_then(MEMBERS_STEPS - 1, table(250)));
    assert_eq!(issued.len(), MEMBERS_STEPS);
    let members = r.unwrap().unwrap();
    assert_eq!(members.len(), 250);
    for (i, m) in members.iter().enumerate() {
        assert_eq!(m.student_id, 200000 + i as u64);
        assert_eq!(m.name, format!("Member {}", i));
        assert_eq!(m.subscription_purchased, "Standard");
    }
}

#[test]
fn missing_page_size_control_fails_loudly() {
    let (issued, r) = run_members(done_then(5, Reply::Failed(fault())));
    assert_eq!(issued.len(), 6);
    assert!(matches!(
        r,
        Some(Err(SumsClientMembersError::SumsClientError(SumsClientError::WebDriverCmdError(_))))
    ));
}

#[test]
fn dashboard_wait_timeout_is_reported() {
    let (issued, r) = run_members(done_then(3, Reply::TimedOut));
    assert_eq!(issued.len(), 4);
    assert!(matches!(
        r,
        Some(Err(SumsClientMembersError::SumsClientError(SumsClientError::NavigationTimeout)))
    ));
}

#[test]
fn empty_member_table_is_ok() {
    let (_, r) = run_members(done_then(MEMBERS_STEPS - 1, table(0)));
    assert!(r.unwrap().unwrap().is_empty());
}

#[test]
fn malformed_member_row_fails_member_list() {
    let bad = Reply::Table(vec![vec![
        "123456".to_string(),
        "Jane Doe".to_string(),
        "x".to_string(),
        "Gold".to_string(),
        "not-a-date".to_string(),
    ]]);
    let (_, r) = run_members(done_then(MEMBERS_STEPS - 1, bad));
    assert!(matches!(r, Some(Err(SumsClientMembersError::ChronoParseError(_)))));
}

#[test]
fn decimal_and_urls() {
    assert_eq!(decimal_text(0), "0");
    assert_eq!(decimal_text(213), "213");
    assert_eq!(decimal_text(65535), "65535");
    assert_eq!(members_url("https://example.org", 7), "https://example.org/groups/7/members");
}
