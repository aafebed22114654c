//! What the pages show: the name in the profile menu, and the rows of the
//! service account table.

use vstd::prelude::*;
use crate::decimal::{push_signed_decimal, signed_decimal};
use crate::models::{User, opt_view};

verus! {

/// The name shown for a user: first and last name when both are known, else the e-mail.
pub open spec fn display_name_spec(first: Option<Seq<char>>, last: Option<Seq<char>>, email: Seq<char>) -> Seq<char> {
    match (first, last) {
        (Some(f), Some(l)) => f + " "@ + l,
        _ => email,
    }
}

/// The name shown is the e-mail unless both first and last name are known, and
/// then it is the first name, a space and the last name.
pub proof fn law_display_name(first: Option<Seq<char>>, last: Option<Seq<char>>, email: Seq<char>)
    ensures
        !(first is Some && last is Some) ==> display_name_spec(first, last, email) == email,
        first matches Some(f) ==> (last matches Some(l) ==> display_name_spec(first, last, email) == f
            + seq![' '] + l),
{
    assert(" "@ == seq![' ']) by {
        reveal_strlit(" ");
    }
}

/// The name shown in the profile menu.
pub fn display_name(user: User) -> (res: String)
    ensures
        res@ == display_name_spec(opt_view(user.first_name), opt_view(user.last_name), user.email@),
{
    match (user.first_name, user.last_name) {
        (Some(first), Some(last)) => {
            let mut s = first;
            s.append(" ");
            s.append(last.as_str());
            s
        },
        _ => user.email,
    }
}

/// A service account as the table lists it.
#[derive(Debug, PartialEq, Eq)]
pub struct ServiceAccountSummary {
    pub id: i32,
    pub account_name: String,
    pub vault_name: Option<String>,
    pub environment_name: Option<String>,
}

/// What a table cell shows.
#[derive(Debug, PartialEq, Eq)]
pub enum CellContent {
    Text(String),
    /// A link that connects the account to a vault.
    ConnectToVault,
    /// A label, for the environment.
    Label(String),
    Empty,
}

/// A table cell, with the element id that the page's scripts find it by.
#[derive(Debug, PartialEq, Eq)]
pub struct TableCell {
    pub id: Option<String>,
    pub content: CellContent,
}

/// A cell taken by its texts.
pub ghost enum CellView {
    Text(Seq<char>),
    ConnectToVault,
    Label(Seq<char>),
    Empty,
}

/// The texts of a cell: its id and its content.
pub open spec fn cell_view(c: TableCell) -> (Option<Seq<char>>, CellView) {
    (
        opt_view(c.id),
        match c.content {
            CellContent::Text(t) => CellView::Text(t@),
            CellContent::ConnectToVault => CellView::ConnectToVault,
            CellContent::Label(t) => CellView::Label(t@),
            CellContent::Empty => CellView::Empty,
        },
    )
}

/// The cells of a row taken by their texts.
pub open spec fn row_view(cells: Seq<TableCell>) -> Seq<(Option<Seq<char>>, CellView)> {
    cells.map_values(|c: TableCell| cell_view(c))
}

/// The row of a service account: its name and vault (the name carries the view id
/// when a vault is connected; otherwise the vault cell carries the row id and a
/// link to connect one), its environment as a label, then the empty Updated,
/// Created and Action cells.
pub open spec fn service_account_row_spec(
    id: i32,
    name: Seq<char>,
    vault: Option<Seq<char>>,
    environment: Option<Seq<char>>,
) -> Seq<(Option<Seq<char>>, CellView)> {
    let name_and_vault = match vault {
        Some(v) => seq![
            (Some("service-account-view-"@ + signed_decimal(id as int)), CellView::Text(name)),
            (None, CellView::Text(v)),
        ],
        None => seq![
            (None, CellView::Text(name)),
            (Some("service-account-row-"@ + signed_decimal(id as int)), CellView::ConnectToVault),
        ],
    };
    let environment_cell = match environment {
        Some(e) => (None, CellView::Label(e)),
        None => (None, CellView::Empty),
    };
    name_and_vault + seq![environment_cell, (None, CellView::Empty), (None, CellView::Empty), (None, CellView::Empty)]
}

/// Each row has six cells. A connected vault (whatever the environment) shows
/// as the account name carrying the view id, then the vault's name; without one,
/// the name is plain and the vault cell carries the row id and a connect link.
/// The third cell labels the environment or is empty; the last three are empty.
pub proof fn law_service_account_row(
    id: i32,
    name: Seq<char>,
    vault: Option<Seq<char>>,
    environment: Option<Seq<char>>,
)
    ensures
        ({
            let row = service_account_row_spec(id, name, vault, environment);
            &&& row.len() == 6
            &&& vault matches Some(v) ==> row[0] == (Some("service-account-view-"@ + signed_decimal(id as int)),
                CellView::Text(name)) && row[1] == (None::<Seq<char>>, CellView::Text(v))
            &&& vault is None ==> row[0] == (None::<Seq<char>>, CellView::Text(name)) && row[1] == (Some(
                "service-account-row-"@ + signed_decimal(id as int),
            ), CellView::ConnectToVault)
            &&& environment matches Some(e) ==> row[2] == (None::<Seq<char>>, CellView::Label(e))
            &&& environment is None ==> row[2] == (None::<Seq<char>>, CellView::Empty)
            &&& forall|k: int| 3 <= k < 6 ==> #[trigger] row[k] == (None::<Seq<char>>, CellView::Empty)
        }),
{
}

/// An element id: a prefix, then the account's id.
fn element_id(prefix: &str, id: i32) -> (res: String)
    ensures
        res@ == prefix@ + signed_decimal(id as int),
{
    let mut s = String::from_str(prefix);
    push_signed_decimal(&mut s, id as i64);
    s
}

fn empty_cell() -> (res: TableCell)
    ensures
        cell_view(res) == (None::<Seq<char>>, CellView::Empty),
{
    TableCell { id: None, content: CellContent::Empty }
}

/// The cells of one service account's row.
pub fn service_account_row(account: &ServiceAccountSummary) -> (res: Vec<TableCell>)
    ensures
        row_view(res@) == service_account_row_spec(
            account.id,
            account.account_name@,
            opt_view(account.vault_name),
            opt_view(account.environment_name),
        ),
{
    let mut cells: Vec<TableCell> = Vec::new();
    match &account.vault_name {
        Some(vault_name) => {
            cells.push(
                TableCell {
                    id: Some(element_id("service-account-view-", account.id)),
                    content: CellContent::Text(account.account_name.clone()),
                },
            );
            cells.push(TableCell { id: None, content: CellContent::Text(vault_name.clone()) });
        },
        None => {
            cells.push(TableCell { id: None, content: CellContent::Text(account.account_name.clone()) });
            cells.push(
                TableCell {
                    id: Some(element_id("service-account-row-", account.id)),
                    content: CellContent::ConnectToVault,
                },
            );
        },
    }
    match &account.environment_name {
        Some(env_name) => cells.push(TableCell { id: None, content: CellContent::Label(env_name.clone()) }),
        None => cells.push(empty_cell()),
    }
    cells.push(empty_cell());
    cells.push(empty_cell());
    cells.push(empty_cell());
    proof {
        assert(row_view(cells@) =~= service_account_row_spec(
            account.id,
            account.account_name@,
            opt_view(account.vault_name),
            opt_view(account.environment_name),
        ));
    }
    cells
}

/// The rows of the service account table, one per account, in order.
pub fn service_account_rows(accounts: &Vec<ServiceAccountSummary>) -> (res: Vec<Vec<TableCell>>)
    ensures
        res@.len() == accounts@.len(),
        forall|i: int| 0 <= i < accounts@.len() ==> row_view(#[trigger] res@[i]@) == service_account_row_spec(
            accounts@[i].id,
            accounts@[i].account_name@,
            opt_view(accounts@[i].vault_name),
            opt_view(accounts@[i].environment_name),
        ),
{
    let mut rows: Vec<Vec<TableCell>> = Vec::new();
    let mut i: usize = 0;
    while i < accounts.len()
        invariant
            i <= accounts@.len(),
            rows@.len() == i,
            forall|k: int| 0 <= k < i ==> row_view(#[trigger] rows@[k]@) == service_account_row_spec(
                accounts@[k].id,
                accounts@[k].account_name@,
                opt_view(accounts@[k].vault_name),
                opt_view(accounts@[k].environment_name),
            ),
        decreases accounts@.len() - i,
    {
        rows.push(service_account_row(&accounts[i]));
        i = i + 1;
    }
    rows
}

/// Texts by their characters.
pub open spec fn texts_view(texts: Seq<String>) -> Seq<Seq<char>> {
    texts.map_values(|t: String| t@)
}

/// The title of the service account box.
pub open spec fn service_account_title_spec() -> Seq<char> {
    "Service Accounts"@
}

/// The column titles of the service account table, in order.
pub open spec fn service_account_header_spec() -> Seq<Seq<char>> {
    seq![
        "Service Account Name"@,
        "Vault"@,
        "Environment"@,
        "Updated"@,
        "Created"@,
        "Action"@,
    ]
}

/// The column titles of the service account table.
pub fn service_account_header() -> (res: Vec<String>)
    ensures
        texts_view(res@) == service_account_header_spec(),
{
    let mut header: Vec<String> = Vec::new();
    header.push(String::from_str("Service Account Name"));
    header.push(String::from_str("Vault"));
    header.push(String::from_str("Environment"));
    header.push(String::from_str("Updated"));
    header.push(String::from_str("Created"));
    header.push(String::from_str("Action"));
    proof {
        assert(texts_view(header@) =~= service_account_header_spec());
    }
    header
}

/// The service account table: a titled box with one header row and one row per account.
#[derive(Debug, PartialEq, Eq)]
pub struct ServiceAccountTable {
    pub title: String,
    pub header: Vec<String>,
    pub rows: Vec<Vec<TableCell>>,
}

/// Lays out the service account table: the box title, the six column titles,
/// and the accounts' rows in the order given, none dropped or repeated.
pub fn service_account_table(accounts: &Vec<ServiceAccountSummary>) -> (res: ServiceAccountTable)
    ensures
        res.title@ == service_account_title_spec(),
        texts_view(res.header@) == service_account_header_spec(),
        res.rows@.len() == accounts@.len(),
        forall|i: int| 0 <= i < accounts@.len() ==> row_view(#[trigger] res.rows@[i]@) == service_account_row_spec(
            accounts@[i].id,
            accounts@[i].account_name@,
            opt_view(accounts@[i].vault_name),
            opt_view(accounts@[i].environment_name),
        ),
{
    ServiceAccountTable {
        title: String::from_str("Service Accounts"),
        header: service_account_header(),
        rows: service_account_rows(accounts),
    }
}

/// Where a link of the profile menu leads.
#[derive(Debug, PartialEq, Eq)]
pub enum LinkTarget {
    /// The profile page of the organisation.
    ProfilePage { organisation_id: i32 },
    /// A plain address.
    Href(String),
}

/// A link of the profile menu.
#[derive(Debug, PartialEq, Eq)]
pub struct MenuLink {
    pub text: String,
    pub target: LinkTarget,
    /// The frame the link opens in.
    pub frame: String,
    /// The drawer that the link opens, if any.
    pub drawer_trigger: Option<String>,
}

/// The way a drop-down menu opens.
#[derive(Debug, PartialEq, Eq, Structural)]
pub enum Direction {
    North,
    NorthEast,
    East,
    SouthEast,
    South,
    SouthWest,
    West,
    NorthWest,
}

/// The profile menu: inside a turbo frame (with its id and class), a drop-down
/// (with its direction and class) whose button shows the user's name, with a
/// link to the profile and one that logs out.
#[derive(Debug, PartialEq, Eq)]
pub struct ProfilePopup {
    pub frame_id: String,
    pub frame_class: String,
    pub direction: Direction,
    pub class: String,
    pub button_text: String,
    pub links: Vec<MenuLink>,
}

/// A menu link by its texts: text, target (`Ok(organisation)` for the profile
/// page, `Err(address)` otherwise), frame and drawer.
pub open spec fn menu_link_view(l: MenuLink) -> (Seq<char>, Result<i32, Seq<char>>, Seq<char>, Option<Seq<char>>) {
    (
        l.text@,
        match l.target {
            LinkTarget::ProfilePage { organisation_id } => Ok(organisation_id),
            LinkTarget::Href(h) => Err(h@),
        },
        l.frame@,
        opt_view(l.drawer_trigger),
    )
}

/// The links of the profile menu of `organisation_id`, both opening in the top frame.
pub open spec fn profile_links_spec(organisation_id: i32) -> Seq<
    (Seq<char>, Result<i32, Seq<char>>, Seq<char>, Option<Seq<char>>),
> {
    seq![
        ("Profile"@, Ok(organisation_id), "_top"@, None),
        ("Log Out"@, Err("#"@), "_top"@, Some("logout-drawer"@)),
    ]
}

/// Lays out the profile menu of `user` in `organisation_id`.
pub fn profile_popup(user: User, organisation_id: i32) -> (res: ProfilePopup)
    ensures
        res.frame_id@ == "profile-popup"@,
        res.frame_class@ == "width-full"@,
        res.direction == Direction::NorthEast,
        res.class@ == "width-full"@,
        res.button_text@ == display_name_spec(opt_view(user.first_name), opt_view(user.last_name), user.email@),
        res.links@.map_values(|l: MenuLink| menu_link_view(l)) == profile_links_spec(organisation_id),
{
    let mut links: Vec<MenuLink> = Vec::new();
    links.push(
        MenuLink {
            text: String::from_str("Profile"),
            target: LinkTarget::ProfilePage { organisation_id },
            frame: String::from_str("_top"),
            drawer_trigger: None,
        },
    );
    links.push(
        MenuLink {
            text: String::from_str("Log Out"),
            target: LinkTarget::Href(String::from_str("#")),
            frame: String::from_str("_top"),
            drawer_trigger: Some(String::from_str("logout-drawer")),
        },
    );
    proof {
        assert(links@.map_values(|l: MenuLink| menu_link_view(l)) =~= profile_links_spec(organisation_id));
    }
    ProfilePopup {
        frame_id: String::from_str("profile-popup"),
        frame_class: String::from_str("width-full"),
        direction: Direction::NorthEast,
        class: String::from_str("width-full"),
        button_text: display_name(user),
        links,
    }
}

} // verus!
