use vstd::prelude::*;

verus! {

/// A rule that picks elements out of the rendered page.
#[derive(Debug)]
pub enum Locator {
    Id(String),
    XPath(String),
    Css(String),
}

/// The text of a locator, independent of its kind.
pub enum LocatorView {
    Id(Seq<char>),
    XPath(Seq<char>),
    Css(Seq<char>),
}

impl View for Locator {
    type V = LocatorView;

    open spec fn view(&self) -> LocatorView {
        match self {
            Locator::Id(s) => LocatorView::Id(s@),
            Locator::XPath(s) => LocatorView::XPath(s@),
            Locator::Css(s) => LocatorView::Css(s@),
        }
    }
}

impl Locator {
    /// An equal copy of the locator.
    pub fn duplicate(&self) -> (r: Locator)
        ensures
            r == *self,
    {
        match self {
            Locator::Id(s) => Locator::Id(s.clone()),
            Locator::XPath(s) => Locator::XPath(s.clone()),
            Locator::Css(s) => Locator::Css(s.clone()),
        }
    }
}

pub const BASE_URL: &'static str = "https://su.nottingham.ac.uk";

pub const DASHBOARD_URL: &'static str = "https://student-dashboard.sums.su";

pub const MENU_TRIGGER_ID: &'static str = "userActionsInvoker";

pub const STUDENT_LOGIN_XPATH: &'static str = "//*[@id=\"userActions\"]/ul/li[1]/a[1]";

pub const LOGIN_FORM_XPATH: &'static str = "/html/body/div/div/div/div[1]/form";

pub const USERNAME_FIELD_ID: &'static str = "username";

pub const PASSWORD_FIELD_ID: &'static str = "password";

pub const LOGIN_ERROR_XPATH: &'static str = "/html/body/div/div/div/div[1]/section/p";

pub const DASHBOARD_LINK_ID: &'static str = "studentDashboardLink";

pub const PAGE_SIZE_SELECT_CSS: &'static str =
    "#group-member-list-datatable_length > label:nth-child(1) > select:nth-child(1)";

pub const TABLE_BODY_CSS: &'static str = "#group-member-list-datatable > tbody:nth-child(2)";

pub const TABLE_ROW_CSS: &'static str = "tr";

pub const TABLE_CELL_CSS: &'static str = "td";

/// Page size that the injected option offers: more rows than any group has.
pub const SHOW_ALL_VALUE: &'static str = "100000";

/// Adds a page-size option that shows every row to the member table's page
/// size control, unless it is already there. Throws when the control is
/// missing, so that the driver reports a failure instead of reading one page.
pub const SHOW_ALL_SCRIPT: &'static str = "(function () {
  var select = document.querySelector('#group-member-list-datatable_length select');
  if (!select) {
    throw new Error('page size control not found');
  }
  if (!select.querySelector('option[value=\"100000\"]')) {
    var option = document.createElement('option');
    option.value = '100000';
    option.text = 'All';
    select.appendChild(option);
  }
})();";

/// Where the pages live and how to find the elements the flows use on them.
/// Markup drift is met by changing these values.
#[derive(Debug)]
pub struct SiteConfig {
    pub base_url: String,
    pub dashboard_url: String,
    pub menu_trigger: Locator,
    pub student_login: Locator,
    pub login_form: Locator,
    pub username_field: Locator,
    pub password_field: Locator,
    pub login_error: Locator,
    pub dashboard_link: Locator,
    pub page_size_select: Locator,
    pub table_body: Locator,
    pub table_row: Locator,
    pub table_cell: Locator,
    pub show_all_script: String,
    pub show_all_value: String,
}

impl SiteConfig {
    /// The students' union site and its member dashboard.
    pub fn sums() -> (r: SiteConfig)
        ensures
            r.base_url@ == BASE_URL@,
            r.dashboard_url@ == DASHBOARD_URL@,
            r.menu_trigger@ == LocatorView::Id(MENU_TRIGGER_ID@),
            r.student_login@ == LocatorView::XPath(STUDENT_LOGIN_XPATH@),
            r.login_form@ == LocatorView::XPath(LOGIN_FORM_XPATH@),
            r.username_field@ == LocatorView::Id(USERNAME_FIELD_ID@),
            r.password_field@ == LocatorView::Id(PASSWORD_FIELD_ID@),
            r.login_error@ == LocatorView::XPath(LOGIN_ERROR_XPATH@),
            r.dashboard_link@ == LocatorView::Id(DASHBOARD_LINK_ID@),
            r.page_size_select@ == LocatorView::Css(PAGE_SIZE_SELECT_CSS@),
            r.table_body@ == LocatorView::Css(TABLE_BODY_CSS@),
            r.table_row@ == LocatorView::Css(TABLE_ROW_CSS@),
            r.table_cell@ == LocatorView::Css(TABLE_CELL_CSS@),
            r.show_all_script@ == SHOW_ALL_SCRIPT@,
            r.show_all_value@ == SHOW_ALL_VALUE@,
    {
        SiteConfig {
            base_url: String::from_str(BASE_URL),
            dashboard_url: String::from_str(DASHBOARD_URL),
            menu_trigger: Locator::Id(String::from_str(MENU_TRIGGER_ID)),
            student_login: Locator::XPath(String::from_str(STUDENT_LOGIN_XPATH)),
            login_form: Locator::XPath(String::from_str(LOGIN_FORM_XPATH)),
            username_field: Locator::Id(String::from_str(USERNAME_FIELD_ID)),
            password_field: Locator::Id(String::from_str(PASSWORD_FIELD_ID)),
            login_error: Locator::XPath(String::from_str(LOGIN_ERROR_XPATH)),
            dashboard_link: Locator::Id(String::from_str(DASHBOARD_LINK_ID)),
            page_size_select: Locator::Css(String::from_str(PAGE_SIZE_SELECT_CSS)),
            table_body: Locator::Css(String::from_str(TABLE_BODY_CSS)),
            table_row: Locator::Css(String::from_str(TABLE_ROW_CSS)),
            table_cell: Locator::Css(String::from_str(TABLE_CELL_CSS)),
            show_all_script: String::from_str(SHOW_ALL_SCRIPT),
            show_all_value: String::from_str(SHOW_ALL_VALUE),
        }
    }
}

/// The character of a decimal digit.
pub open spec fn digit_char(d: nat) -> char {
    seq!['0', '1', '2', '3', '4', '5', '6', '7', '8', '9'][d as int]
}

/// The decimal representation of `n`, without leading zeros.
pub open spec fn decimal(n: nat) -> Seq<char>
    decreases n,
{
    if n < 10 {
        seq![digit_char(n)]
    } else {
        decimal(n / 10).push(digit_char(n % 10))
    }
}

fn digit_text(d: u16) -> (r: &'static str)
    requires
        d < 10,
    ensures
        r@ == seq![digit_char(d as nat)],
{
    proof {
        reveal_strlit("0");
        reveal_strlit("1");
        reveal_strlit("2");
        reveal_strlit("3");
        reveal_strlit("4");
        reveal_strlit("5");
        reveal_strlit("6");
        reveal_strlit("7");
        reveal_strlit("8");
        reveal_strlit("9");
    }
    let r = if d == 0 {
        "0"
    } else if d == 1 {
        "1"
    } else if d == 2 {
        "2"
    } else if d == 3 {
        "3"
    } else if d == 4 {
        "4"
    } else if d == 5 {
        "5"
    } else if d == 6 {
        "6"
    } else if d == 7 {
        "7"
    } else if d == 8 {
        "8"
    } else {
        "9"
    };
    assert(r@ =~= seq![digit_char(d as nat)]);
    r
}

/// The decimal text of a number.
pub fn decimal_text(n: u16) -> (r: String)
    ensures
        r@ == decimal(n as nat),
    decreases n,
{
    if n < 10 {
        String::from_str(digit_text(n))
    } else {
        let mut s = decimal_text(n / 10);
        s.append(digit_text(n % 10));
        assert(s@ =~= decimal(n as nat));
        s
    }
}

pub open spec fn members_path(group_id: u16) -> Seq<char> {
    "/groups/"@ + decimal(group_id as nat) + "/members"@
}

/// The address of a group's member page under the dashboard.
pub fn members_url(dashboard_url: &str, group_id: u16) -> (r: String)
    ensures
        r@ == dashboard_url@ + members_path(group_id),
{
    let mut s = String::from_str(dashboard_url);
    s.append("/groups/");
    let id = decimal_text(group_id);
    s.append(id.as_str());
    s.append("/members");
    assert(s@ =~= dashboard_url@ + members_path(group_id));
    s
}

} // verus!
