use cloak::accept_invite::verifier_hash;
use cloak::errors::CustomError;
use cloak::invite::{
    generate_invitation, invitation_tokens, invite_audit_description, invite_email, invite_email_body,
    invite_roles, invite_url, prepare_invitation, NewInvite, Role,
};
use cloak::validation::FieldError;

fn invite(email: &str, admin: bool) -> NewInvite {
    NewInvite { email: email.to_string(), admin: if admin { Some("on".to_string()) } else { None } }
}

#[test]
fn tokens_are_url_safe_base64() {
    let t = invitation_tokens([0; 6], [0xff; 8]);
    assert_eq!(t.selector, "AAAAAAAA");
    assert_eq!(t.verifier, "__________8");
    assert_eq!(t.verifier_hash, "EqOuRFZhzl3ueNBlDTM2LewpxPgq8F5-V_tZW7us8Mo");
    let t = invitation_tokens([1, 2, 3, 4, 5, 6], [250, 251, 252, 253, 254, 255, 0, 1]);
    assert_eq!(t.selector, "AQIDBAUG");
    assert_eq!(t.verifier, "-vv8_f7_AAE");
    assert_eq!(t.verifier_hash, "3X07WD86uMVI8jvdBYz840-UnuFrrUDz5W2V52G6N8k");
}

#[test]
fn invitation_link_verifies() {
    let t = invitation_tokens([1, 2, 3, 4, 5, 6], [250, 251, 252, 253, 254, 255, 0, 1]);
    assert_eq!(verifier_hash(&t.verifier), Ok(t.verifier_hash.clone()));
    for _ in 0..20 {
        let p = generate_invitation(&invite("a@b.c", false));
        assert_eq!(p.tokens.selector.len(), 8);
        assert_eq!(p.tokens.verifier.len(), 11);
        assert_eq!(p.tokens.verifier_hash.len(), 43);
        assert_eq!(verifier_hash(&p.tokens.verifier), Ok(p.tokens.verifier_hash.clone()));
    }
}

#[test]
fn bad_verifiers_are_faulty_setup() {
    assert_eq!(
        verifier_hash("A"),
        Err(CustomError::FaultySetup("Encoded text cannot have a 6-bit remainder.".to_string()))
    );
    assert_eq!(verifier_hash("A$"), Err(CustomError::FaultySetup("Invalid byte 36, offset 1.".to_string())));
    assert_eq!(
        verifier_hash("AB"),
        Err(CustomError::FaultySetup("Invalid last symbol 66, offset 1.".to_string()))
    );
    assert_eq!(verifier_hash(""), Ok("47DEQpj8HBSa-_TImW-5JCeuQeRkm5NMpJWZG3hSuFU".to_string()));
}

#[test]
fn roles_of_an_invitation() {
    assert_eq!(invite_roles(&invite("a@b.c", true)), vec![Role::Administrator, Role::Collaborator]);
    assert_eq!(invite_roles(&invite("a@b.c", false)), vec![Role::Collaborator]);
    let p = prepare_invitation(&invite("x@y.z", true), [0; 6], [0xff; 8]);
    assert_eq!(p.email, "x@y.z");
    assert_eq!(p.roles, vec![Role::Administrator, Role::Collaborator]);
    assert_eq!(p.tokens.verifier, "__________8");
}

#[test]
fn invitation_email() {
    let url = invite_url("https://cloak.example", "sel", "ver");
    assert_eq!(url, "https://cloak.example/app/team/accept_invite/?invite_selector=sel&invite_validator=ver");
    assert_eq!(invite_email_body("U"), "Click U to accept the invite");
    let expected_body = format!("\n                Click {} to accept the invite\n            ", url).trim().to_string();
    assert_eq!(invite_email_body(&url), expected_body);
    let t = invitation_tokens([0; 6], [0xff; 8]);
    let mail = invite_email("http://d", &invite("p@q.r", false), &t);
    assert_eq!(mail.to, "p@q.r");
    assert_eq!(mail.subject, "You are invited to a Cloak Team");
    assert_eq!(
        mail.body,
        "Click http://d/app/team/accept_invite/?invite_selector=AAAAAAAA&invite_validator=__________8 to accept the invite"
    );
    assert_eq!(invite_audit_description("p@q.r"), "p@q.r invited");
}

#[test]
fn invitation_form_rules() {
    assert_eq!(invite("a", false).validate(), Ok(()));
    assert_eq!(
        invite("", true).validate(),
        Err(vec![FieldError { field: "email".to_string(), message: "The email is mandatory".to_string() }])
    );
}
