use cloak::models::User;
use cloak::ui::{
    display_name, profile_popup, service_account_header, service_account_rows, service_account_table, CellContent,
    Direction, LinkTarget, MenuLink, ServiceAccountSummary, TableCell,
};
use cloak::validation::FieldError;
use cloak::vault::{vault_audit_description, NewVault};

#[test]
fn profile_name() {
    let named = User { id: 1, email: "e@x".to_string(), first_name: Some("Jo".to_string()), last_name: Some("Li".to_string()) };
    assert_eq!(display_name(named), "Jo Li");
    let half = User { id: 1, email: "e@x".to_string(), first_name: Some("Jo".to_string()), last_name: None };
    assert_eq!(display_name(half), "e@x");
}

fn cell(id: Option<&str>, content: CellContent) -> TableCell {
    TableCell { id: id.map(|s| s.to_string()), content }
}

#[test]
fn service_account_table_rows() {
    let accounts = vec![
        ServiceAccountSummary {
            id: 4,
            account_name: "ci".to_string(),
            vault_name: Some("prod".to_string()),
            environment_name: Some("Production".to_string()),
        },
        ServiceAccountSummary { id: -2, account_name: "bot".to_string(), vault_name: None, environment_name: None },
    ];
    let rows = service_account_rows(&accounts);
    assert_eq!(rows.len(), 2);
    assert_eq!(
        rows[0],
        vec![
            cell(Some("service-account-view-4"), CellContent::Text("ci".to_string())),
            cell(None, CellContent::Text("prod".to_string())),
            cell(None, CellContent::Label("Production".to_string())),
            cell(None, CellContent::Empty),
            cell(None, CellContent::Empty),
            cell(None, CellContent::Empty),
        ]
    );
    assert_eq!(
        rows[1],
        vec![
            cell(None, CellContent::Text("bot".to_string())),
            cell(Some("service-account-row--2"), CellContent::ConnectToVault),
            cell(None, CellContent::Empty),
            cell(None, CellContent::Empty),
            cell(None, CellContent::Empty),
            cell(None, CellContent::Empty),
        ]
    );
    assert!(service_account_rows(&vec![]).is_empty());
}

#[test]
fn new_vault_rules() {
    let ok = NewVault { name: "v".to_string(), encrypted_vault_key: "k".to_string(), public_key: "p".to_string() };
    assert_eq!(ok.validate(), Ok(()));
    let bad = NewVault { name: String::new(), encrypted_vault_key: "k".to_string(), public_key: String::new() };
    assert_eq!(
        bad.validate(),
        Err(vec![
            FieldError { field: "name".to_string(), message: "The name is mandatory".to_string() },
            FieldError { field: "public_key".to_string(), message: "Where did the vault key go?".to_string() },
        ])
    );
    assert_eq!(vault_audit_description("Payments"), "Payments vault created");
}

#[test]
fn service_account_table_layout() {
    assert_eq!(
        service_account_header(),
        vec!["Service Account Name", "Vault", "Environment", "Updated", "Created", "Action"]
    );
    let accounts = vec![
        ServiceAccountSummary { id: 1, account_name: "a".to_string(), vault_name: None, environment_name: None },
        ServiceAccountSummary { id: 2, account_name: "b".to_string(), vault_name: None, environment_name: None },
    ];
    let table = service_account_table(&accounts);
    assert_eq!(table.title, "Service Accounts");
    assert_eq!(table.header.len(), 6);
    assert_eq!(table.rows, service_account_rows(&accounts));
    assert_eq!(table.rows[1][0], cell(None, CellContent::Text("b".to_string())));
}

#[test]
fn profile_menu() {
    let user = User { id: 1, email: "e@x".to_string(), first_name: None, last_name: Some("Li".to_string()) };
    let popup = profile_popup(user, 9);
    assert_eq!(popup.button_text, "e@x");
    assert_eq!(popup.frame_id, "profile-popup");
    assert_eq!(popup.frame_class, "width-full");
    assert_eq!(popup.direction, Direction::NorthEast);
    assert_eq!(popup.class, "width-full");
    assert_eq!(
        popup.links,
        vec![
            MenuLink {
                text: "Profile".to_string(),
                target: LinkTarget::ProfilePage { organisation_id: 9 },
                frame: "_top".to_string(),
                drawer_trigger: None,
            },
            MenuLink {
                text: "Log Out".to_string(),
                target: LinkTarget::Href("#".to_string()),
                frame: "_top".to_string(),
                drawer_trigger: Some("logout-drawer".to_string()),
            },
        ]
    );
}
