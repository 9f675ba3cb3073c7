//! The rules the engine's operations obey, stated once over the outcome
//! functions and proved for every state and every input. Together with the
//! operations' own contracts (a failed operation leaves the store exactly as
//! it was; a successful one performs its single write) these pin down the
//! authorization behaviour of the engine.

use vstd::prelude::*;

use crate::auth::{has_role, system_org, Role};
use crate::engine::{
    audit_outcome, filled_application, read_outcome, register_outcome, submit_outcome,
};
use crate::errors::EngineError;
use crate::state::{
    draft_well_formed, user_well_formed, ApplicationDraftView, ApplicationView, UserView, PENDING,
};

verus! {

/// A candidate with an empty identifier, address, organization or role list
/// is refused as a validation error, whoever the caller is and whatever the
/// store holds. (By `register`'s contract, no store write occurs.)
pub proof fn lemma_register_rejects_malformed(
    users: Map<Seq<char>, UserView>,
    caller: Seq<char>,
    candidate: UserView,
)
    requires
        candidate.user_id.len() == 0 || candidate.address.len() == 0 || candidate.org.len() == 0
            || candidate.role.len() == 0,
    ensures
        register_outcome(users, caller, candidate) == Err::<UserView, EngineError>(
            EngineError::ValidationError,
        ),
{
}

/// A caller with no stored user record cannot register anyone: a well-formed
/// candidate is refused as an unauthenticated caller.
pub proof fn lemma_register_requires_registered_caller(
    users: Map<Seq<char>, UserView>,
    caller: Seq<char>,
    candidate: UserView,
)
    requires
        user_well_formed(candidate),
        !users.contains_key(caller),
    ensures
        register_outcome(users, caller, candidate) == Err::<UserView, EngineError>(
            EngineError::UnauthenticatedCaller,
        ),
{
}

/// A registered caller without the SYSTEM role is denied registration of any
/// well-formed candidate.
pub proof fn lemma_register_denies_non_system_caller(
    users: Map<Seq<char>, UserView>,
    caller: Seq<char>,
    candidate: UserView,
)
    requires
        user_well_formed(candidate),
        users.contains_key(caller),
        !has_role(users[caller].role, Role::System),
    ensures
        register_outcome(users, caller, candidate) == Err::<UserView, EngineError>(
            EngineError::PermissionDenied,
        ),
{
}

/// The same candidate a non-SYSTEM caller is denied, a SYSTEM caller
/// registers successfully, provided the candidate honours the reserved
/// organization and its address is fresh: the candidate comes back
/// unchanged.
pub proof fn lemma_register_accepts_system_caller(
    users: Map<Seq<char>, UserView>,
    caller: Seq<char>,
    candidate: UserView,
)
    requires
        user_well_formed(candidate),
        users.contains_key(caller),
        has_role(users[caller].role, Role::System),
        has_role(candidate.role, Role::System) ==> candidate.org == system_org(),
        !users.contains_key(candidate.address),
    ensures
        register_outcome(users, caller, candidate) == Ok::<UserView, EngineError>(candidate),
{
}

/// A candidate holding the SYSTEM role but an organization other than the
/// reserved value is refused as a validation error, for any SYSTEM caller.
pub proof fn lemma_register_rejects_system_role_outside_system_org(
    users: Map<Seq<char>, UserView>,
    caller: Seq<char>,
    candidate: UserView,
)
    requires
        users.contains_key(caller),
        has_role(users[caller].role, Role::System),
        has_role(candidate.role, Role::System),
        candidate.org != system_org(),
    ensures
        register_outcome(users, caller, candidate) == Err::<UserView, EngineError>(
            EngineError::ValidationError,
        ),
{
}

/// Once a user is stored under its address, registering a second user with
/// the same address fails as already existing, and the first user is still
/// the one stored under that address.
pub proof fn lemma_register_rejects_duplicate_address(
    users: Map<Seq<char>, UserView>,
    caller: Seq<char>,
    first: UserView,
    second: UserView,
)
    requires
        user_well_formed(second),
        second.address == first.address,
        users.insert(first.address, first).contains_key(caller),
        has_role(users.insert(first.address, first)[caller].role, Role::System),
        has_role(second.role, Role::System) ==> second.org == system_org(),
    ensures
        register_outcome(users.insert(first.address, first), caller, second) == Err::<
            UserView,
            EngineError,
        >(EngineError::AlreadyExists),
        users.insert(first.address, first)[first.address] == first,
{
}

/// Users are immutable: registration only ever succeeds for an address the
/// store does not hold yet, so no stored user is ever replaced. (No update
/// or delete operation exists.)
pub proof fn lemma_register_never_replaces(
    users: Map<Seq<char>, UserView>,
    caller: Seq<char>,
    candidate: UserView,
)
    requires
        register_outcome(users, caller, candidate) is Ok,
    ensures
        !users.contains_key(candidate.address),
{
}

/// A registered caller without the ENTERPRISE role is denied submission of
/// any well-formed draft with a fresh key.
pub proof fn lemma_submit_denies_non_enterprise_caller(
    users: Map<Seq<char>, UserView>,
    applications: Map<Seq<char>, ApplicationView>,
    caller: Seq<char>,
    draft: ApplicationDraftView,
)
    requires
        draft_well_formed(draft),
        !applications.contains_key(draft.application_id),
        users.contains_key(caller),
        !has_role(users[caller].role, Role::Enterprise),
    ensures
        submit_outcome(users, applications, caller, draft) == Err::<ApplicationView, EngineError>(
            EngineError::PermissionDenied,
        ),
{
}

/// The identical draft an ENTERPRISE caller submits successfully, and the
/// resulting application is pending.
pub proof fn lemma_submit_accepts_enterprise_caller(
    users: Map<Seq<char>, UserView>,
    applications: Map<Seq<char>, ApplicationView>,
    caller: Seq<char>,
    draft: ApplicationDraftView,
)
    requires
        draft_well_formed(draft),
        !applications.contains_key(draft.application_id),
        users.contains_key(caller),
        has_role(users[caller].role, Role::Enterprise),
    ensures
        submit_outcome(users, applications, caller, draft) == Ok::<ApplicationView, EngineError>(
            filled_application(draft),
        ),
        filled_application(draft).result == PENDING,
{
}

/// Reading a stored application succeeds exactly for the addresses on its
/// permission list; every other address is denied.
pub proof fn lemma_read_gated_by_permission_list(
    applications: Map<Seq<char>, ApplicationView>,
    caller: Seq<char>,
    application_id: Seq<char>,
)
    requires
        applications.contains_key(application_id),
    ensures
        !applications[application_id].permission.contains(caller) ==> read_outcome(
            applications,
            caller,
            application_id,
        ) == Err::<ApplicationView, EngineError>(EngineError::PermissionDenied),
        applications[application_id].permission.contains(caller) ==> read_outcome(
            applications,
            caller,
            application_id,
        ) == Ok::<ApplicationView, EngineError>(applications[application_id]),
{
}

/// Auditing is gated by the updated record's own permission list: an absent
/// address is denied, and a present address replaces a stored record whole.
pub proof fn lemma_audit_gated_by_permission_list(
    applications: Map<Seq<char>, ApplicationView>,
    caller: Seq<char>,
    updated: ApplicationView,
)
    ensures
        !updated.permission.contains(caller) ==> audit_outcome(applications, caller, updated)
            == Err::<ApplicationView, EngineError>(EngineError::PermissionDenied),
        updated.permission.contains(caller) && applications.contains_key(updated.application_id)
            ==> audit_outcome(applications, caller, updated) == Ok::<ApplicationView, EngineError>(
            updated,
        ),
{
}

/// Round trip: after a successful submission, a read by any permitted
/// address returns exactly the submitted draft, completed with the pending
/// result and the empty reason.
pub proof fn lemma_submit_then_read_round_trip(
    users: Map<Seq<char>, UserView>,
    applications: Map<Seq<char>, ApplicationView>,
    caller: Seq<char>,
    draft: ApplicationDraftView,
    reader: Seq<char>,
)
    requires
        submit_outcome(users, applications, caller, draft) is Ok,
        draft.permission.contains(reader),
    ensures
        read_outcome(
            applications.insert(draft.application_id, filled_application(draft)),
            reader,
            draft.application_id,
        ) == Ok::<ApplicationView, EngineError>(filled_application(draft)),
        filled_application(draft).application_id == draft.application_id,
        filled_application(draft).application_type == draft.application_type,
        filled_application(draft).application_entity == draft.application_entity,
        filled_application(draft).enterprise == draft.enterprise,
        filled_application(draft).time_stamp == draft.time_stamp,
        filled_application(draft).data == draft.data,
        filled_application(draft).permission == draft.permission,
        filled_application(draft).result == PENDING,
        filled_application(draft).reason == Seq::<char>::empty(),
{
}

} // verus!
