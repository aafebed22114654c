use cloak::accept_invite::{AcceptAction, AcceptEvent, AcceptStage, Invitation, InvitationAcceptance, MembershipWrite};
use cloak::errors::CustomError;
use cloak::invite::{invitation_tokens, Role};
use cloak::models::User;
use cloak::registration::{Registration, RegistrationAction, RegistrationEvent, RegistrationStage};

fn stored_invitation(hash: &str) -> Invitation {
    Invitation {
        organisation_id: 77,
        email: "new@team.org".to_string(),
        invitation_verifier_hash: hash.to_string(),
        first_name: Some("Ada".to_string()),
        last_name: Some("Lovelace".to_string()),
        roles: vec![Role::Collaborator],
    }
}

fn user(id: i32, email: &str, named: bool) -> User {
    User {
        id,
        email: email.to_string(),
        first_name: if named { Some("A".to_string()) } else { None },
        last_name: if named { Some("B".to_string()) } else { None },
    }
}

#[test]
fn acceptance_of_a_matching_link() {
    let t = invitation_tokens([9; 6], [7; 8]);
    let (acc, action) = InvitationAcceptance::start(12, &t.selector, &t.verifier).unwrap();
    assert_eq!(
        action,
        AcceptAction::FetchInvitation {
            row_level_security: "SET LOCAL row_level_security.user_id = 12".to_string(),
            selector: t.selector.clone(),
        }
    );
    let (acc, action) = acc.step(AcceptEvent::InvitationFound(stored_invitation(&t.verifier_hash)));
    assert_eq!(action, AcceptAction::FetchUser { user_id: 12 });
    let (acc, action) = acc.step(AcceptEvent::UserFound(user(12, "new@team.org", false)));
    assert_eq!(action, AcceptAction::FetchUserByEmail { email: "new@team.org".to_string() });
    let (acc, action) = acc.step(AcceptEvent::UserFound(user(12, "new@team.org", false)));
    assert_eq!(acc.stage, AcceptStage::Finished);
    assert_eq!(
        action,
        AcceptAction::Commit {
            writes: vec![
                MembershipWrite::AddUserToOrganisation { user_id: 12, organisation_id: 77, roles: vec![Role::Collaborator] },
                MembershipWrite::SetName {
                    first_name: Some("Ada".to_string()),
                    last_name: Some("Lovelace".to_string()),
                    user_id: 12,
                },
                MembershipWrite::DeleteInvitation { email: "new@team.org".to_string(), organisation_id: 77 },
            ],
            organisation_id: 77,
        }
    );
}

#[test]
fn acceptance_keeps_a_name_that_is_set() {
    let t = invitation_tokens([9; 6], [7; 8]);
    let (acc, _) = InvitationAcceptance::start(12, &t.selector, &t.verifier).unwrap();
    let (acc, _) = acc.step(AcceptEvent::InvitationFound(stored_invitation(&t.verifier_hash)));
    let (acc, _) = acc.step(AcceptEvent::UserFound(user(12, "new@team.org", true)));
    let (_, action) = acc.step(AcceptEvent::UserFound(user(40, "new@team.org", true)));
    assert_eq!(
        action,
        AcceptAction::Commit {
            writes: vec![
                MembershipWrite::AddUserToOrganisation { user_id: 40, organisation_id: 77, roles: vec![Role::Collaborator] },
                MembershipWrite::DeleteInvitation { email: "new@team.org".to_string(), organisation_id: 77 },
            ],
            organisation_id: 77,
        }
    );
}

#[test]
fn acceptance_with_a_wrong_verifier_writes_nothing() {
    let t = invitation_tokens([9; 6], [7; 8]);
    let other = invitation_tokens([9; 6], [8; 8]);
    let (acc, _) = InvitationAcceptance::start(12, &t.selector, &other.verifier).unwrap();
    let (acc, action) = acc.step(AcceptEvent::InvitationFound(stored_invitation(&t.verifier_hash)));
    assert_eq!(action, AcceptAction::Commit { writes: vec![], organisation_id: 77 });
    assert_eq!(acc.stage, AcceptStage::Finished);
}

#[test]
fn acceptance_by_another_user_writes_nothing() {
    let t = invitation_tokens([9; 6], [7; 8]);
    let (acc, _) = InvitationAcceptance::start(12, &t.selector, &t.verifier).unwrap();
    let (acc, _) = acc.step(AcceptEvent::InvitationFound(stored_invitation(&t.verifier_hash)));
    let (_, action) = acc.step(AcceptEvent::UserFound(user(12, "someone@else.org", false)));
    assert_eq!(action, AcceptAction::Commit { writes: vec![], organisation_id: 77 });
}

#[test]
fn acceptance_refuses_out_of_order_events() {
    let t = invitation_tokens([9; 6], [7; 8]);
    let (acc, _) = InvitationAcceptance::start(12, &t.selector, &t.verifier).unwrap();
    let (acc, action) = acc.step(AcceptEvent::UserFound(user(12, "new@team.org", false)));
    assert_eq!(action, AcceptAction::Abort);
    let (_, action) = acc.step(AcceptEvent::InvitationFound(stored_invitation(&t.verifier_hash)));
    assert_eq!(action, AcceptAction::Abort);
}

#[test]
fn acceptance_of_a_broken_link() {
    assert_eq!(
        InvitationAcceptance::start(1, "sel", "A$").err(),
        Some(CustomError::FaultySetup("Invalid byte 36, offset 1.".to_string()))
    );
}

#[test]
fn registration_with_an_organisation() {
    let (r, action) = Registration::start(3);
    assert_eq!(action, RegistrationAction::LookUpPrimaryOrganisation { user_id: 3 });
    let (r, action) = r.step(RegistrationEvent::PrimaryOrganisation(Some(10)));
    assert_eq!(action, RegistrationAction::RedirectToVaults { organisation_id: 10 });
    assert_eq!(r.stage, RegistrationStage::Finished);
}

#[test]
fn registration_without_an_organisation() {
    let (r, _) = Registration::start(3);
    let (r, action) = r.step(RegistrationEvent::PrimaryOrganisation(None));
    assert_eq!(action, RegistrationAction::InsertOrganisation { user_id: 3 });
    let (r, action) = r.step(RegistrationEvent::OrganisationInserted(55));
    assert_eq!(action, RegistrationAction::InsertUserIntoOrganisation { user_id: 3, organisation_id: 55, is_admin: true });
    let (r, action) = r.step(RegistrationEvent::MembershipInserted);
    assert_eq!(action, RegistrationAction::RedirectToVaults { organisation_id: 55 });
    let (_, action) = r.step(RegistrationEvent::MembershipInserted);
    assert_eq!(action, RegistrationAction::Abort);
}

#[test]
fn accepted_invitation_cannot_be_replayed() {
    let t = invitation_tokens([3; 6], [5; 8]);
    let mut table = vec![stored_invitation(&t.verifier_hash)];
    let (acc, _) = InvitationAcceptance::start(12, &t.selector, &t.verifier).unwrap();
    let (acc, _) = acc.step(AcceptEvent::InvitationFound(stored_invitation(&t.verifier_hash)));
    let (acc, _) = acc.step(AcceptEvent::UserFound(user(12, "new@team.org", true)));
    let (_, action) = acc.step(AcceptEvent::UserFound(user(12, "new@team.org", true)));
    match action {
        AcceptAction::Commit { writes, .. } => {
            for w in writes {
                if let MembershipWrite::DeleteInvitation { email, organisation_id } = w {
                    table.retain(|i| !(i.email == email && i.organisation_id == organisation_id));
                }
            }
        }
        other => panic!("unexpected {:?}", other),
    }
    assert!(table.is_empty());
}
