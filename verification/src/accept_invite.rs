//! Accepting an invitation: the link's verifier is checked against the stored
//! hash, then the invited user joins the team.
//!
//! The database work is done by the caller. `InvitationAcceptance` decides,
//! from what each query returned, which query or write comes next.

use vstd::prelude::*;
use crate::base64url::{Base64Error, b64url, b64url_source, is_b64url, base64_url_decode,
    base64_error_message, decode_url_safe, decoded_view, encode_url_safe, lemma_b64url_source};
use crate::digest::{sha256, sha256_digest};
use crate::errors::CustomError;
use crate::invite::{Role, InvitationTokens, tokens_from};
use crate::models::User;
use crate::rls::{row_level_security_statement, row_level_security_sql};

verus! {

/// The two halves of an invitation link.
#[derive(Debug, PartialEq, Eq)]
pub struct Invite {
    pub invite_selector: String,
    pub invite_validator: String,
}

/// The hash that a decoded verifier is compared by, or the message of the
/// decoding error.
pub open spec fn hash_of_decoded(decoded: Result<Seq<u8>, Base64Error>) -> Result<Seq<char>, Seq<char>> {
    match decoded {
        Ok(b) => Ok(b64url(sha256_digest(b))),
        Err(e) => Err(base64_error_message(e)),
    }
}

/// Whether a result carries the hash, or the faulty-setup error, that `expected` says.
pub open spec fn hash_result_is(res: Result<String, CustomError>, expected: Result<Seq<char>, Seq<char>>) -> bool {
    match expected {
        Ok(h) => res matches Ok(s) && s@ == h,
        Err(m) => res matches Err(CustomError::FaultySetup(x)) && x@ == m,
    }
}

/// Hashes a decoded verifier: SHA-256, in URL-safe base64. A decoding error
/// becomes a faulty-setup error with the error's text.
pub fn hash_decoded_verifier(decoded: Result<Vec<u8>, Base64Error>) -> (res: Result<String, CustomError>)
    ensures
        hash_result_is(res, hash_of_decoded(decoded_view(decoded))),
{
    match decoded {
        Ok(bytes) => {
            let digest = sha256(bytes.as_slice());
            Ok(encode_url_safe(digest.as_slice()))
        },
        Err(e) => Err(CustomError::FaultySetup(e.message())),
    }
}

/// The hash that a verifier text made by `b64url` is accepted with.
pub open spec fn accepted_hash(verifier: Seq<char>) -> Seq<char> {
    b64url(sha256_digest(b64url_source(verifier)))
}

/// Hashes the verifier of an invitation link as the stored hash was made.
pub fn verifier_hash(invitation_verifier: &str) -> (res: Result<String, CustomError>)
    ensures
        hash_result_is(res, hash_of_decoded(base64_url_decode(invitation_verifier@))),
        is_b64url(invitation_verifier@) ==> (res matches Ok(h) && h@ == accepted_hash(
            invitation_verifier@,
        )),
{
    let decoded = decode_url_safe(invitation_verifier);
    hash_decoded_verifier(decoded)
}

/// The link of an invitation is accepted: the verifier that it carries hashes to
/// the hash that was stored with the invitation.
pub proof fn law_invitation_link_verifies(tokens: InvitationTokens, selector: Seq<u8>, verifier: Seq<u8>)
    requires
        tokens_from(tokens, selector, verifier),
    ensures
        is_b64url(tokens.verifier@),
        accepted_hash(tokens.verifier@) == tokens.verifier_hash@,
{
    lemma_b64url_source(verifier);
}

/// A stored invitation, as the acceptance reads it.
#[derive(Debug, PartialEq, Eq)]
pub struct Invitation {
    pub organisation_id: i32,
    pub email: String,
    pub invitation_verifier_hash: String,
    pub first_name: Option<String>,
    pub last_name: Option<String>,
    pub roles: Vec<Role>,
}

/// Where an acceptance stands.
#[derive(Debug, PartialEq, Eq)]
pub enum AcceptStage {
    /// The invitation is being looked up by its selector.
    AwaitingInvitation,
    /// The verifier matched; the accepting user is being looked up.
    AwaitingUser { invitation: Invitation },
    /// The accepting user is the one invited; they are being looked up by e-mail.
    AwaitingUserByEmail { invitation: Invitation, email: String },
    /// The outcome is decided.
    Finished,
}

/// What a query of the acceptance returned.
#[derive(Debug, PartialEq, Eq)]
pub enum AcceptEvent {
    InvitationFound(Invitation),
    UserFound(User),
}

/// A write of an accepted invitation.
#[derive(Debug, PartialEq, Eq)]
pub enum MembershipWrite {
    AddUserToOrganisation { user_id: i32, organisation_id: i32, roles: Vec<Role> },
    SetName { first_name: Option<String>, last_name: Option<String>, user_id: i32 },
    DeleteInvitation { email: String, organisation_id: i32 },
}

/// What the caller does next.
#[derive(Debug, PartialEq, Eq)]
pub enum AcceptAction {
    /// Set the row level security user, then look up the invitation by its selector.
    FetchInvitation { row_level_security: String, selector: String },
    /// Look up the user with this id.
    FetchUser { user_id: i32 },
    /// Look up the user with this e-mail.
    FetchUserByEmail { email: String },
    /// Make these writes, commit, and answer with the organisation's id.
    Commit { writes: Vec<MembershipWrite>, organisation_id: i32 },
    /// The event does not belong to this stage: the acceptance ends without writing.
    Abort,
}

/// An acceptance in progress, on behalf of `user_id`, with the hash of the link's verifier.
#[derive(Debug, PartialEq, Eq)]
pub struct InvitationAcceptance {
    pub user_id: i32,
    pub verifier_hash: String,
    pub stage: AcceptStage,
}

/// The writes that accept `invitation` for the user found by e-mail, on behalf of `user_id`:
/// membership with the invitation's roles, the name from the invitation when the
/// user has none, and the removal of the invitation.
pub open spec fn acceptance_writes(invitation: Invitation, user: User, user_id: i32) -> Seq<MembershipWrite> {
    let add = MembershipWrite::AddUserToOrganisation {
        user_id: user.id,
        organisation_id: invitation.organisation_id,
        roles: invitation.roles,
    };
    let delete = MembershipWrite::DeleteInvitation {
        email: invitation.email,
        organisation_id: invitation.organisation_id,
    };
    if user.first_name is None && user.last_name is None {
        seq![
            add,
            MembershipWrite::SetName {
                first_name: invitation.first_name,
                last_name: invitation.last_name,
                user_id,
            },
            delete,
        ]
    } else {
        seq![add, delete]
    }
}

/// Whether `writes` delete `invitation`: the deletion goes by e-mail and organisation.
pub open spec fn deletes_invitation(writes: Seq<MembershipWrite>, invitation: Invitation) -> bool {
    exists|k: int|
        0 <= k < writes.len() && (#[trigger] writes[k] matches MembershipWrite::DeleteInvitation {
            email,
            organisation_id,
        } && email@ == invitation.email@ && organisation_id == invitation.organisation_id)
}

/// The stored invitations left once `writes` are committed.
pub open spec fn invitations_after(table: Seq<Invitation>, writes: Seq<MembershipWrite>) -> Seq<Invitation> {
    table.filter(|i: Invitation| !deletes_invitation(writes, i))
}

/// An accepted invitation cannot be accepted again: the writes that accept it
/// leave no stored invitation with its e-mail and organisation, so a second
/// look-up of its link finds nothing, and a second acceptance ends before
/// anything is written.
pub proof fn law_accepted_invitation_is_consumed(
    invitation: Invitation,
    user: User,
    user_id: i32,
    table: Seq<Invitation>,
)
    ensures
        forall|i: int|
            0 <= i < invitations_after(table, acceptance_writes(invitation, user, user_id)).len() ==> !(
            #[trigger] invitations_after(table, acceptance_writes(invitation, user, user_id))[i].email@
                == invitation.email@ && invitations_after(
                table,
                acceptance_writes(invitation, user, user_id),
            )[i].organisation_id == invitation.organisation_id),
{
    let writes = acceptance_writes(invitation, user, user_id);
    let pred = |i: Invitation| !deletes_invitation(writes, i);
    broadcast use vstd::seq_lib::group_filter_ensures;

    let after = invitations_after(table, writes);
    let k = writes.len() - 1;
    assert(writes[k] matches MembershipWrite::DeleteInvitation { email, organisation_id });
    assert forall|i: int| 0 <= i < after.len() implies !(#[trigger] after[i].email@ == invitation.email@
        && after[i].organisation_id == invitation.organisation_id) by {
        assert(pred(after[i]));
        if after[i].email@ == invitation.email@ && after[i].organisation_id == invitation.organisation_id {
            assert(deletes_invitation(writes, after[i]));
        }
    }
}

/// The writes of an accepted invitation: the user found by e-mail joins the
/// invitation's organisation with its roles, and the invitation is deleted last.
/// A name is written exactly when that user has neither a first nor a last name,
/// and then it is the invitation's name, for the user on whose behalf the
/// acceptance runs; a user with any name set keeps it.
pub proof fn law_acceptance_writes(invitation: Invitation, user: User, user_id: i32)
    ensures
        ({
            let w = acceptance_writes(invitation, user, user_id);
            &&& w.len() >= 2
            &&& w[0] == (MembershipWrite::AddUserToOrganisation {
                user_id: user.id,
                organisation_id: invitation.organisation_id,
                roles: invitation.roles,
            })
            &&& w[w.len() - 1] == (MembershipWrite::DeleteInvitation {
                email: invitation.email,
                organisation_id: invitation.organisation_id,
            })
            &&& (user.first_name is Some || user.last_name is Some) ==> w.len() == 2
            &&& (exists|k: int| 0 <= k < w.len() && #[trigger] w[k] is SetName) <==> (
            user.first_name is None && user.last_name is None)
            &&& forall|k: int|
                0 <= k < w.len() && (#[trigger] w[k] is SetName) ==> w[k] == (MembershipWrite::SetName {
                    first_name: invitation.first_name,
                    last_name: invitation.last_name,
                    user_id,
                })
        }),
{
    let w = acceptance_writes(invitation, user, user_id);
    if user.first_name is None && user.last_name is None {
        assert(w[1] is SetName);
    } else {
        assert forall|k: int| 0 <= k < w.len() implies !(#[trigger] w[k] is SetName) by {
            assert(k == 0 || k == 1);
        }
    }
}

impl InvitationAcceptance {
    /// What each stage has established: past the invitation, the link's verifier
    /// matched its hash; past the user, the user's e-mail is the invitation's.
    pub open spec fn wf(&self) -> bool {
        match self.stage {
            AcceptStage::AwaitingUser { invitation } => invitation.invitation_verifier_hash@
                == self.verifier_hash@,
            AcceptStage::AwaitingUserByEmail { invitation, email } => {
                &&& invitation.invitation_verifier_hash@ == self.verifier_hash@
                &&& email@ == invitation.email@
            },
            _ => true,
        }
    }

    /// Starts accepting the invitation of a link on behalf of `user_id`: hashes the
    /// verifier (a verifier that is not base64 is a faulty-setup error), then asks
    /// for the invitation under row level security.
    pub fn start(user_id: i32, invitation_selector: &str, invitation_verifier: &str) -> (res: Result<
        (InvitationAcceptance, AcceptAction),
        CustomError,
    >)
        ensures
            match hash_of_decoded(base64_url_decode(invitation_verifier@)) {
                Ok(h) => res matches Ok((acc, action)) && {
                    &&& acc.user_id == user_id
                    &&& acc.verifier_hash@ == h
                    &&& acc.stage is AwaitingInvitation
                    &&& acc.wf()
                    &&& action matches AcceptAction::FetchInvitation { row_level_security, selector }
                        && row_level_security@ == row_level_security_sql(user_id as int) && selector@
                        == invitation_selector@
                },
                Err(m) => res matches Err(CustomError::FaultySetup(x)) && x@ == m,
            },
            is_b64url(invitation_verifier@) ==> (res matches Ok((acc, action)) && acc.verifier_hash@
                == accepted_hash(invitation_verifier@)),
    {
        let hash = verifier_hash(invitation_verifier);
        match hash {
            Ok(verifier_hash) => {
                let acc = InvitationAcceptance { user_id, verifier_hash, stage: AcceptStage::AwaitingInvitation };
                let action = AcceptAction::FetchInvitation {
                    row_level_security: row_level_security_statement(user_id),
                    selector: String::from_str(invitation_selector),
                };
                Ok((acc, action))
            },
            Err(e) => Err(e),
        }
    }

    /// Takes what the last query returned and says what comes next.
    ///
    /// The invitation found by the selector is accepted only if its stored hash is
    /// the link's; the user on whose behalf this runs must have the invitation's
    /// e-mail. Otherwise nothing is written. Every commit answers with the
    /// invitation's organisation.
    pub fn step(self, event: AcceptEvent) -> (res: (InvitationAcceptance, AcceptAction))
        requires
            self.wf(),
        ensures
            res.0.wf(),
            res.0.user_id == self.user_id,
            res.0.verifier_hash == self.verifier_hash,
            match (self.stage, event) {
                (AcceptStage::AwaitingInvitation, AcceptEvent::InvitationFound(invitation)) =>
                    if invitation.invitation_verifier_hash@ == self.verifier_hash@ {
                        &&& res.0.stage == (AcceptStage::AwaitingUser { invitation })
                        &&& res.1 == (AcceptAction::FetchUser { user_id: self.user_id })
                    } else {
                        &&& res.0.stage is Finished
                        &&& res.1 matches AcceptAction::Commit { writes, organisation_id }
                            && writes@.len() == 0 && organisation_id == invitation.organisation_id
                    },
                (AcceptStage::AwaitingUser { invitation }, AcceptEvent::UserFound(user)) =>
                    if user.email@ == invitation.email@ {
                        &&& res.0.stage matches AcceptStage::AwaitingUserByEmail { invitation: i, email }
                            && i == invitation && email@ == user.email@
                        &&& res.1 matches AcceptAction::FetchUserByEmail { email } && email@ == user.email@
                    } else {
                        &&& res.0.stage is Finished
                        &&& res.1 matches AcceptAction::Commit { writes, organisation_id }
                            && writes@.len() == 0 && organisation_id == invitation.organisation_id
                    },
                (AcceptStage::AwaitingUserByEmail { invitation, email }, AcceptEvent::UserFound(user)) => {
                    &&& res.0.stage is Finished
                    &&& res.1 matches AcceptAction::Commit { writes, organisation_id }
                        && writes@ == acceptance_writes(invitation, user, self.user_id)
                        && organisation_id == invitation.organisation_id
                },
                _ => res.1 is Abort && res.0.stage is Finished,
            },
            // Nothing is written unless the link's verifier matched the stored hash and
            // the accepting user is the invited one.
            res.1 matches AcceptAction::Commit { writes, organisation_id } ==> (writes@.len() > 0 ==> (
            self.stage matches AcceptStage::AwaitingUserByEmail { invitation, email } && {
                &&& invitation.invitation_verifier_hash@ == self.verifier_hash@
                &&& email@ == invitation.email@
                &&& organisation_id == invitation.organisation_id
            })),
    {
        let user_id = self.user_id;
        let verifier_hash = self.verifier_hash;
        match (self.stage, event) {
            (AcceptStage::AwaitingInvitation, AcceptEvent::InvitationFound(invitation)) => {
                if invitation.invitation_verifier_hash == verifier_hash {
                    (
                        InvitationAcceptance { user_id, verifier_hash, stage: AcceptStage::AwaitingUser { invitation } },
                        AcceptAction::FetchUser { user_id },
                    )
                } else {
                    let organisation_id = invitation.organisation_id;
                    (
                        InvitationAcceptance { user_id, verifier_hash, stage: AcceptStage::Finished },
                        AcceptAction::Commit { writes: Vec::new(), organisation_id },
                    )
                }
            },
            (AcceptStage::AwaitingUser { invitation }, AcceptEvent::UserFound(user)) => {
                if user.email == invitation.email {
                    let email = user.email.clone();
                    (
                        InvitationAcceptance {
                            user_id,
                            verifier_hash,
                            stage: AcceptStage::AwaitingUserByEmail { invitation, email },
                        },
                        AcceptAction::FetchUserByEmail { email: user.email },
                    )
                } else {
                    let organisation_id = invitation.organisation_id;
                    (
                        InvitationAcceptance { user_id, verifier_hash, stage: AcceptStage::Finished },
                        AcceptAction::Commit { writes: Vec::new(), organisation_id },
                    )
                }
            },
            (AcceptStage::AwaitingUserByEmail { invitation, email }, AcceptEvent::UserFound(user)) => {
                let ghost spec_invitation = invitation;
                let ghost spec_user = user;
                let organisation_id = invitation.organisation_id;
                let no_name = user.first_name.is_none() && user.last_name.is_none();
                let mut writes: Vec<MembershipWrite> = Vec::new();
                writes.push(
                    MembershipWrite::AddUserToOrganisation {
                        user_id: user.id,
                        organisation_id,
                        roles: invitation.roles,
                    },
                );
                if no_name {
                    writes.push(
                        MembershipWrite::SetName {
                            first_name: invitation.first_name,
                            last_name: invitation.last_name,
                            user_id,
                        },
                    );
                }
                writes.push(MembershipWrite::DeleteInvitation { email: invitation.email, organisation_id });
                proof {
                    assert(writes@ =~= acceptance_writes(spec_invitation, spec_user, user_id));
                }
                (
                    InvitationAcceptance { user_id, verifier_hash, stage: AcceptStage::Finished },
                    AcceptAction::Commit { writes, organisation_id },
                )
            },
            (_, _) => (InvitationAcceptance { user_id, verifier_hash, stage: AcceptStage::Finished }, AcceptAction::Abort),
        }
    }
}

} // verus!
