//! After a user has logged in or registered, make sure they belong to an
//! organisation: if they have no primary organisation, one is created for them
//! and they become its administrator. Either way they land on its vaults.
//!
//! The database work is done by the caller; `Registration` decides what comes next.

use vstd::prelude::*;

verus! {

/// Where the check stands.
#[derive(Debug, PartialEq, Eq, Structural)]
pub enum RegistrationStage {
    /// The user's primary organisation is being looked up.
    AwaitingPrimaryOrganisation,
    /// A new organisation is being inserted for the user.
    AwaitingNewOrganisation,
    /// The user is being made a member of the new organisation.
    AwaitingMembership { organisation_id: i32 },
    /// The user has been sent on.
    Finished,
}

/// The check on behalf of `user_id`.
#[derive(Debug, PartialEq, Eq, Structural)]
pub struct Registration {
    pub user_id: i32,
    pub stage: RegistrationStage,
}

/// What a query returned. A failed look-up of the primary organisation counts as none.
#[derive(Debug, PartialEq, Eq, Structural)]
pub enum RegistrationEvent {
    PrimaryOrganisation(Option<i32>),
    OrganisationInserted(i32),
    MembershipInserted,
}

/// What the caller does next.
#[derive(Debug, PartialEq, Eq, Structural)]
pub enum RegistrationAction {
    LookUpPrimaryOrganisation { user_id: i32 },
    InsertOrganisation { user_id: i32 },
    InsertUserIntoOrganisation { user_id: i32, organisation_id: i32, is_admin: bool },
    /// Redirect to the vaults of this organisation.
    RedirectToVaults { organisation_id: i32 },
    /// The event does not belong to this stage: the check ends without a redirect.
    Abort,
}

/// One step of the check.
pub open spec fn registration_step(r: Registration, event: RegistrationEvent) -> (Registration, RegistrationAction) {
    let finished = Registration { user_id: r.user_id, stage: RegistrationStage::Finished };
    match (r.stage, event) {
        (RegistrationStage::AwaitingPrimaryOrganisation, RegistrationEvent::PrimaryOrganisation(Some(id))) =>
            (finished, RegistrationAction::RedirectToVaults { organisation_id: id }),
        (RegistrationStage::AwaitingPrimaryOrganisation, RegistrationEvent::PrimaryOrganisation(None)) =>
            (
                Registration { user_id: r.user_id, stage: RegistrationStage::AwaitingNewOrganisation },
                RegistrationAction::InsertOrganisation { user_id: r.user_id },
            ),
        (RegistrationStage::AwaitingNewOrganisation, RegistrationEvent::OrganisationInserted(id)) =>
            (
                Registration { user_id: r.user_id, stage: RegistrationStage::AwaitingMembership { organisation_id: id } },
                RegistrationAction::InsertUserIntoOrganisation { user_id: r.user_id, organisation_id: id, is_admin: true },
            ),
        (RegistrationStage::AwaitingMembership { organisation_id }, RegistrationEvent::MembershipInserted) =>
            (finished, RegistrationAction::RedirectToVaults { organisation_id }),
        _ => (finished, RegistrationAction::Abort),
    }
}

/// The actions that a sequence of events leads to, one per event.
pub open spec fn registration_run(r: Registration, events: Seq<RegistrationEvent>) -> Seq<RegistrationAction>
    decreases events.len(),
{
    if events.len() == 0 {
        seq![]
    } else {
        let (next, action) = registration_step(r, events[0]);
        seq![action] + registration_run(next, events.drop_first())
    }
}

impl Registration {
    /// Starts the check for `user_id` by looking up their primary organisation.
    pub fn start(user_id: i32) -> (res: (Registration, RegistrationAction))
        ensures
            res.0 == (Registration { user_id, stage: RegistrationStage::AwaitingPrimaryOrganisation }),
            res.1 == (RegistrationAction::LookUpPrimaryOrganisation { user_id }),
    {
        (
            Registration { user_id, stage: RegistrationStage::AwaitingPrimaryOrganisation },
            RegistrationAction::LookUpPrimaryOrganisation { user_id },
        )
    }

    /// Takes what the last query returned and says what comes next.
    pub fn step(self, event: RegistrationEvent) -> (res: (Registration, RegistrationAction))
        ensures
            res == registration_step(self, event),
    {
        let user_id = self.user_id;
        match (self.stage, event) {
            (RegistrationStage::AwaitingPrimaryOrganisation, RegistrationEvent::PrimaryOrganisation(Some(id))) => (
                Registration { user_id, stage: RegistrationStage::Finished },
                RegistrationAction::RedirectToVaults { organisation_id: id },
            ),
            (RegistrationStage::AwaitingPrimaryOrganisation, RegistrationEvent::PrimaryOrganisation(None)) => (
                Registration { user_id, stage: RegistrationStage::AwaitingNewOrganisation },
                RegistrationAction::InsertOrganisation { user_id },
            ),
            (RegistrationStage::AwaitingNewOrganisation, RegistrationEvent::OrganisationInserted(id)) => (
                Registration { user_id, stage: RegistrationStage::AwaitingMembership { organisation_id: id } },
                RegistrationAction::InsertUserIntoOrganisation { user_id, organisation_id: id, is_admin: true },
            ),
            (RegistrationStage::AwaitingMembership { organisation_id }, RegistrationEvent::MembershipInserted) => (
                Registration { user_id, stage: RegistrationStage::Finished },
                RegistrationAction::RedirectToVaults { organisation_id },
            ),
            (_, _) => (Registration { user_id, stage: RegistrationStage::Finished }, RegistrationAction::Abort),
        }
    }
}

/// Once the user has been sent on, nothing more happens.
proof fn lemma_finished_run(r: Registration, events: Seq<RegistrationEvent>)
    requires
        r.stage is Finished,
    ensures
        forall|i: int| 0 <= i < events.len() ==> #[trigger] registration_run(r, events)[i] is Abort,
        registration_run(r, events).len() == events.len(),
    decreases events.len(),
{
    if events.len() > 0 {
        lemma_finished_run(r, events.drop_first());
        let run = registration_run(r, events);
        assert forall|i: int| 0 <= i < events.len() implies #[trigger] run[i] is Abort by {
            if i > 0 {
                assert(run[i] == registration_run(r, events.drop_first())[i - 1]);
            }
        }
    }
}

/// Every step acts for the user being checked: the state stays theirs, every
/// look-up and insert names them, and a membership it inserts makes them
/// administrator. With no primary organisation found, the next step inserts one.
pub proof fn law_registration_acts_for_user(r: Registration, event: RegistrationEvent)
    ensures
        ({
            let (next, action) = registration_step(r, event);
            &&& next.user_id == r.user_id
            &&& action matches RegistrationAction::LookUpPrimaryOrganisation { user_id } ==> user_id
                == r.user_id
            &&& action matches RegistrationAction::InsertOrganisation { user_id } ==> user_id == r.user_id
            &&& action matches RegistrationAction::InsertUserIntoOrganisation { user_id, organisation_id, is_admin }
                ==> user_id == r.user_id && is_admin
            &&& (r.stage is AwaitingPrimaryOrganisation && event == RegistrationEvent::PrimaryOrganisation(
                None,
            )) ==> action == (RegistrationAction::InsertOrganisation { user_id: r.user_id })
            &&& (r.stage is AwaitingPrimaryOrganisation && event is PrimaryOrganisation && event->PrimaryOrganisation_0 is Some)
                ==> action == (RegistrationAction::RedirectToVaults { organisation_id: event->PrimaryOrganisation_0->0 })
        }),
{
}

/// Whatever the queries return, the user is sent to the vaults of an organisation
/// they belong to: the primary organisation that the first look-up found, or else
/// the organisation just created, into which they were inserted as administrator
/// first. They are sent on at most once.
pub proof fn law_registration_redirect(user_id: i32, events: Seq<RegistrationEvent>, i: int)
    requires
        0 <= i < registration_run(
            Registration { user_id, stage: RegistrationStage::AwaitingPrimaryOrganisation },
            events,
        ).len(),
        registration_run(
            Registration { user_id, stage: RegistrationStage::AwaitingPrimaryOrganisation },
            events,
        )[i] is RedirectToVaults,
    ensures
        ({
            let run = registration_run(
                Registration { user_id, stage: RegistrationStage::AwaitingPrimaryOrganisation },
                events,
            );
            let organisation_id = run[i]->RedirectToVaults_organisation_id;
            ||| i == 0 && events[0] == RegistrationEvent::PrimaryOrganisation(Some(organisation_id))
            ||| {
                &&& i == 2
                &&& events[0] == RegistrationEvent::PrimaryOrganisation(None)
                &&& events[1] == RegistrationEvent::OrganisationInserted(organisation_id)
                &&& run[1] == (RegistrationAction::InsertUserIntoOrganisation {
                    user_id,
                    organisation_id,
                    is_admin: true,
                })
            }
        }),
{
    let r0 = Registration { user_id, stage: RegistrationStage::AwaitingPrimaryOrganisation };
    let run = registration_run(r0, events);
    let (r1, a0) = registration_step(r0, events[0]);
    let e1 = events.drop_first();
    assert(run == seq![a0] + registration_run(r1, e1));
    if i == 0 {
        return;
    }
    assert(run[i] == registration_run(r1, e1)[i - 1]);
    if r1.stage is Finished {
        lemma_finished_run(r1, e1);
        return;
    }
    let (r2, a1) = registration_step(r1, e1[0]);
    let e2 = e1.drop_first();
    assert(registration_run(r1, e1) == seq![a1] + registration_run(r2, e2));
    if i == 1 {
        return;
    }
    assert(run[i] == registration_run(r2, e2)[i - 2]);
    if r2.stage is Finished {
        lemma_finished_run(r2, e2);
        return;
    }
    let (r3, a2) = registration_step(r2, e2[0]);
    let e3 = e2.drop_first();
    assert(registration_run(r2, e2) == seq![a2] + registration_run(r3, e3));
    if i == 2 {
        return;
    }
    assert(run[i] == registration_run(r3, e3)[i - 3]);
    lemma_finished_run(r3, e3);
}

} // verus!
