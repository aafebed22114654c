//! Inviting someone to a team: the secret tokens of an invitation, and the
//! e-mail and audit text that announce it.

use vstd::prelude::*;
use rand::Rng;
use crate::base64url::{b64url, encode_url_safe};
use crate::digest::{sha256, sha256_digest};
use crate::validation::{FieldError, check_min_length, errors_view, min_length_errors};

verus! {

/// What a member of a team may do.
#[derive(Clone, Copy, PartialEq, Eq, Structural, Debug)]
pub enum Role {
    Administrator,
    Collaborator,
}

/// The invitation form: whom to invite, and whether as an administrator
/// (any value of `admin` means yes).
#[derive(Debug, PartialEq, Eq)]
pub struct NewInvite {
    pub email: String,
    pub admin: Option<String>,
}

impl NewInvite {
    /// The form's rule: the email is mandatory.
    pub fn validate(&self) -> (res: Result<(), Vec<FieldError>>)
        ensures
            res is Ok <==> self.email@.len() >= 1,
            res matches Err(errors) ==> errors_view(errors@) == min_length_errors(
                "email"@,
                self.email@,
                "The email is mandatory"@,
            ),
    {
        let mut errors: Vec<FieldError> = Vec::new();
        check_min_length(&mut errors, "email", self.email.as_str(), "The email is mandatory");
        if errors.len() == 0 {
            Ok(())
        } else {
            Err(errors)
        }
    }
}

/// The roles that an invitation grants.
pub open spec fn invite_roles_spec(admin: bool) -> Seq<Role> {
    if admin {
        seq![Role::Administrator, Role::Collaborator]
    } else {
        seq![Role::Collaborator]
    }
}

/// The roles of the invited person: an administrator is a collaborator too.
pub fn invite_roles(new_invite: &NewInvite) -> (res: Vec<Role>)
    ensures
        res@ == invite_roles_spec(new_invite.admin is Some),
{
    if new_invite.admin.is_some() {
        let mut v = Vec::new();
        v.push(Role::Administrator);
        v.push(Role::Collaborator);
        proof {
            assert(v@ =~= invite_roles_spec(true));
        }
        v
    } else {
        let mut v = Vec::new();
        v.push(Role::Collaborator);
        proof {
            assert(v@ =~= invite_roles_spec(false));
        }
        v
    }
}

/// The texts that an invitation is found and checked by. The selector and the
/// verifier go into the link that the invited person gets; only the hash of the
/// verifier is stored.
#[derive(Debug, PartialEq, Eq)]
pub struct InvitationTokens {
    pub selector: String,
    pub verifier: String,
    pub verifier_hash: String,
}

/// Encodes the random selector and verifier of an invitation, and the hash of
/// the verifier, in URL-safe base64 without padding.
pub fn invitation_tokens(selector: [u8; 6], verifier: [u8; 8]) -> (res: InvitationTokens)
    ensures
        res.selector@ == b64url(selector@),
        res.verifier@ == b64url(verifier@),
        res.verifier_hash@ == b64url(sha256_digest(verifier@)),
{
    let selector_b64 = encode_url_safe(selector.as_slice());
    let hash = sha256(verifier.as_slice());
    let verifier_hash_b64 = encode_url_safe(hash.as_slice());
    let verifier_b64 = encode_url_safe(verifier.as_slice());
    InvitationTokens { selector: selector_b64, verifier: verifier_b64, verifier_hash: verifier_hash_b64 }
}

/// Trusted: `rand::thread_rng().gen::<[u8; 6]>()`, six random bytes. Nothing is
/// stated of their value.
#[verifier::external_body]
fn random_selector() -> [u8; 6] {
    rand::thread_rng().gen::<[u8; 6]>()
}

/// Trusted: `rand::thread_rng().gen::<[u8; 8]>()`, eight random bytes. Nothing is
/// stated of their value.
#[verifier::external_body]
fn random_verifier() -> [u8; 8] {
    rand::thread_rng().gen::<[u8; 8]>()
}

/// An invitation ready to be stored: who is invited, with which roles, and its tokens.
#[derive(Debug, PartialEq, Eq)]
pub struct PreparedInvitation {
    pub email: String,
    pub roles: Vec<Role>,
    pub tokens: InvitationTokens,
}

/// Whether `tokens` were made by `invitation_tokens` from some 6-byte selector
/// and 8-byte verifier.
pub open spec fn tokens_from(tokens: InvitationTokens, selector: Seq<u8>, verifier: Seq<u8>) -> bool {
    &&& selector.len() == 6
    &&& verifier.len() == 8
    &&& tokens.selector@ == b64url(selector)
    &&& tokens.verifier@ == b64url(verifier)
    &&& tokens.verifier_hash@ == b64url(sha256_digest(verifier))
}

/// Prepares an invitation from the form and the given selector and verifier bytes.
pub fn prepare_invitation(new_invite: &NewInvite, selector: [u8; 6], verifier: [u8; 8]) -> (res:
    PreparedInvitation)
    ensures
        res.email@ == new_invite.email@,
        res.roles@ == invite_roles_spec(new_invite.admin is Some),
        tokens_from(res.tokens, selector@, verifier@),
{
    let tokens = invitation_tokens(selector, verifier);
    PreparedInvitation {
        email: new_invite.email.clone(),
        roles: invite_roles(new_invite),
        tokens,
    }
}

/// Prepares an invitation with a fresh random selector (drawn first) and verifier.
pub fn generate_invitation(new_invite: &NewInvite) -> (res: PreparedInvitation)
    ensures
        res.email@ == new_invite.email@,
        res.roles@ == invite_roles_spec(new_invite.admin is Some),
        exists|selector: Seq<u8>, verifier: Seq<u8>| tokens_from(res.tokens, selector, verifier),
{
    let selector = random_selector();
    let verifier = random_verifier();
    let res = prepare_invitation(new_invite, selector, verifier);
    assert(tokens_from(res.tokens, selector@, verifier@));
    res
}

/// The link that accepts an invitation.
pub open spec fn invite_url_spec(domain: Seq<char>, selector: Seq<char>, verifier: Seq<char>) -> Seq<
    char,
> {
    domain + "/app/team/accept_invite/?invite_selector="@ + selector + "&invite_validator="@ + verifier
}

/// Builds the link that accepts an invitation, under the site's domain.
pub fn invite_url(domain: &str, selector: &str, verifier: &str) -> (res: String)
    ensures
        res@ == invite_url_spec(domain@, selector@, verifier@),
{
    let mut s = String::from_str(domain);
    s.append("/app/team/accept_invite/?invite_selector=");
    s.append(selector);
    s.append("&invite_validator=");
    s.append(verifier);
    proof {
        assert(s@ =~= invite_url_spec(domain@, selector@, verifier@));
    }
    s
}

/// The body of the invitation e-mail: the formatted text with the whitespace
/// around it trimmed.
pub open spec fn invite_body_spec(url: Seq<char>) -> Seq<char> {
    "Click "@ + url + " to accept the invite"@
}

/// Builds the body of the invitation e-mail.
pub fn invite_email_body(url: &str) -> (res: String)
    ensures
        res@ == invite_body_spec(url@),
{
    let mut s = String::from_str("Click ");
    s.append(url);
    s.append(" to accept the invite");
    s
}

/// The subject of the invitation e-mail.
pub open spec fn invite_subject_spec() -> Seq<char> {
    "You are invited to a Cloak Team"@
}

/// The subject of the invitation e-mail.
pub fn invite_subject() -> (res: String)
    ensures
        res@ == invite_subject_spec(),
{
    String::from_str("You are invited to a Cloak Team")
}

/// An e-mail to send: recipient, subject and body.
#[derive(Debug, PartialEq, Eq)]
pub struct InviteEmail {
    pub to: String,
    pub subject: String,
    pub body: String,
}

/// The e-mail that invites `new_invite.email` with the link of `tokens`.
pub fn invite_email(domain: &str, new_invite: &NewInvite, tokens: &InvitationTokens) -> (res:
    InviteEmail)
    ensures
        res.to@ == new_invite.email@,
        res.subject@ == invite_subject_spec(),
        res.body@ == invite_body_spec(
            invite_url_spec(domain@, tokens.selector@, tokens.verifier@),
        ),
{
    let url = invite_url(domain, tokens.selector.as_str(), tokens.verifier.as_str());
    InviteEmail {
        to: new_invite.email.clone(),
        subject: invite_subject(),
        body: invite_email_body(url.as_str()),
    }
}

/// The audit log entry of an invitation.
pub open spec fn invite_audit_spec(email: Seq<char>) -> Seq<char> {
    email + " invited"@
}

/// Builds the audit log entry of an invitation.
pub fn invite_audit_description(email: &str) -> (res: String)
    ensures
        res@ == invite_audit_spec(email@),
{
    let mut s = String::from_str(email);
    s.append(" invited");
    s
}

} // verus!
