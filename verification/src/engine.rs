//! The engine: user registration, application submission, audit and read,
//! each a state transition over the two store collections, together with the
//! facade that dispatches a decoded request and produces the structured
//! record the logging collaborator captures.

use vstd::prelude::*;

use crate::auth::{
    caller_has_role, caller_is_permitted, has_role, system_org, system_org_value, system_user_id,
    system_user_id_value, Role,
};
use crate::errors::EngineError;
use crate::state::{
    draft_well_formed, user_well_formed, Application, ApplicationDraft, ApplicationDraftView,
    ApplicationView, User, UserView, PENDING,
};
use crate::store::Table;

verus! {

/// The persistent state: one collection of users keyed by address, one of
/// applications keyed by application id.
pub struct Engine {
    users: Table<User>,
    applications: Table<Application>,
}

/// Mathematical value of the engine's state.
#[verifier::ext_equal]
pub ghost struct EngineView {
    pub users: Map<Seq<char>, UserView>,
    pub applications: Map<Seq<char>, ApplicationView>,
}

impl View for Engine {
    type V = EngineView;

    closed spec fn view(&self) -> EngineView {
        EngineView { users: self.users@, applications: self.applications@ }
    }
}

/// The user the bootstrap operation seeds: the reserved identifier and
/// organization, and exactly the SYSTEM role.
pub open spec fn bootstrap_user(address: Seq<char>) -> UserView {
    UserView {
        user_id: system_user_id(),
        address: address,
        org: system_org(),
        role: seq![Role::System.spec_tag()],
    }
}

/// What registration decides, given the stored users, the caller address and
/// the candidate: the first failing check names the error, and a candidate
/// that passes every check is returned unchanged.
pub open spec fn register_outcome(
    users: Map<Seq<char>, UserView>,
    caller: Seq<char>,
    candidate: UserView,
) -> Result<UserView, EngineError> {
    if !user_well_formed(candidate) {
        Err(EngineError::ValidationError)
    } else if !users.contains_key(caller) {
        Err(EngineError::UnauthenticatedCaller)
    } else if !has_role(users[caller].role, Role::System) {
        Err(EngineError::PermissionDenied)
    } else if has_role(candidate.role, Role::System) && candidate.org != system_org() {
        Err(EngineError::ValidationError)
    } else if users.contains_key(candidate.address) {
        Err(EngineError::AlreadyExists)
    } else {
        Ok(candidate)
    }
}

/// The record submission persists: the draft completed with a pending result
/// and an empty reason.
pub open spec fn filled_application(d: ApplicationDraftView) -> ApplicationView {
    ApplicationView {
        application_id: d.application_id,
        application_type: d.application_type,
        application_entity: d.application_entity,
        enterprise: d.enterprise,
        time_stamp: d.time_stamp,
        data: d.data,
        permission: d.permission,
        result: PENDING,
        reason: Seq::<char>::empty(),
    }
}

/// What submission decides, given the stored state, the caller address and
/// the draft.
pub open spec fn submit_outcome(
    users: Map<Seq<char>, UserView>,
    applications: Map<Seq<char>, ApplicationView>,
    caller: Seq<char>,
    draft: ApplicationDraftView,
) -> Result<ApplicationView, EngineError> {
    if !draft_well_formed(draft) {
        Err(EngineError::ValidationError)
    } else if applications.contains_key(draft.application_id) {
        Err(EngineError::AlreadyExists)
    } else if !users.contains_key(caller) {
        Err(EngineError::UnauthenticatedCaller)
    } else if !has_role(users[caller].role, Role::Enterprise) {
        Err(EngineError::PermissionDenied)
    } else {
        Ok(filled_application(draft))
    }
}

/// What audit decides: authorization comes from the updated record's own
/// permission list, and a permitted caller replaces the stored record whole.
pub open spec fn audit_outcome(
    applications: Map<Seq<char>, ApplicationView>,
    caller: Seq<char>,
    updated: ApplicationView,
) -> Result<ApplicationView, EngineError> {
    if !updated.permission.contains(caller) {
        Err(EngineError::PermissionDenied)
    } else if !applications.contains_key(updated.application_id) {
        Err(EngineError::NotFound)
    } else {
        Ok(updated)
    }
}

/// What read decides: the stored record, unchanged, for a caller on its
/// permission list.
pub open spec fn read_outcome(
    applications: Map<Seq<char>, ApplicationView>,
    caller: Seq<char>,
    application_id: Seq<char>,
) -> Result<ApplicationView, EngineError> {
    if !applications.contains_key(application_id) {
        Err(EngineError::NotFound)
    } else if !applications[application_id].permission.contains(caller) {
        Err(EngineError::PermissionDenied)
    } else {
        Ok(applications[application_id])
    }
}

/// A decoded operation request, as the transport collaborator hands it in.
pub enum Request {
    RegisterUser { user: User },
    SubmitApplication { draft: ApplicationDraft },
    AuditApplication { application: Application },
    ReadApplication { application_id: String },
}

/// The entity an operation produced.
pub enum Entity {
    User(User),
    Application(Application),
}

/// The structured record of a completed operation, for the logging
/// collaborator to serialize and relay.
pub struct Event {
    /// The operation's name.
    pub operation: String,
    /// The entity the operation returned.
    pub entity: Entity,
}

impl Engine {
    /// An engine over empty collections.
    pub fn new() -> (e: Engine)
        ensures
            e@.users == Map::<Seq<char>, UserView>::empty(),
            e@.applications == Map::<Seq<char>, ApplicationView>::empty(),
    {
        Engine { users: Table::new(), applications: Table::new() }
    }

    /// Seed the first SYSTEM user at `address`. The bootstrap collaborator
    /// calls this exactly once, before any registration can succeed.
    pub fn bootstrap(&mut self, address: String) -> (r: Result<User, EngineError>)
        ensures
            match r {
                Ok(u) => {
                    &&& address@.len() > 0
                    &&& u@ == bootstrap_user(address@)
                    &&& final(self)@.users == old(self)@.users.insert(
                        address@,
                        bootstrap_user(address@),
                    )
                    &&& final(self)@.applications == old(self)@.applications
                },
                Err(e) => {
                    &&& e == EngineError::ValidationError
                    &&& address@.len() == 0
                    &&& final(self)@ == old(self)@
                },
            },
    {
        if address.as_str().is_empty() {
            return Err(EngineError::ValidationError);
        }
        let user = User {
            user_id: system_user_id_value().to_owned(),
            address: address.clone(),
            org: system_org_value().to_owned(),
            role: vec![Role::System.tag().to_owned()],
        };
        proof {
            assert(user@.role =~= seq![Role::System.spec_tag()]);
            assert(user@ =~= bootstrap_user(address@));
        }
        let returned = user.clone();
        self.users.put(address, user);
        Ok(returned)
    }

    /// Register `candidate` on behalf of `caller`; only a stored SYSTEM user
    /// may register, and the candidate is persisted and returned unchanged.
    /// Exactly one store write happens, and only after every check passes.
    pub fn register(&mut self, caller: &String, candidate: User) -> (r: Result<User, EngineError>)
        ensures
            match r {
                Ok(u) => {
                    &&& register_outcome(old(self)@.users, caller@, candidate@) == Ok::<
                        UserView,
                        EngineError,
                    >(candidate@)
                    &&& u@ == candidate@
                    &&& final(self)@.users == old(self)@.users.insert(
                        candidate.address@,
                        candidate@,
                    )
                    &&& final(self)@.applications == old(self)@.applications
                },
                Err(e) => {
                    &&& register_outcome(old(self)@.users, caller@, candidate@) == Err::<
                        UserView,
                        EngineError,
                    >(e)
                    &&& final(self)@ == old(self)@
                },
            },
    {
        if !candidate.is_well_formed() {
            return Err(EngineError::ValidationError);
        }
        match self.users.get(caller) {
            None => {
                return Err(EngineError::UnauthenticatedCaller);
            },
            Some(sender) => {
                if !caller_has_role(sender, Role::System) {
                    return Err(EngineError::PermissionDenied);
                }
            },
        }
        if caller_has_role(&candidate, Role::System) {
            if !(candidate.org == system_org_value().to_owned()) {
                return Err(EngineError::ValidationError);
            }
        }
        if self.users.contains(&candidate.address) {
            return Err(EngineError::AlreadyExists);
        }
        let stored = candidate.clone();
        let key = candidate.address.clone();
        self.users.put(key, stored);
        Ok(candidate)
    }

    /// Submit `draft` on behalf of `caller`; only a stored ENTERPRISE user
    /// may submit, the key must be fresh, and the persisted record is the
    /// draft completed with a pending result and an empty reason.
    pub fn submit(&mut self, caller: &String, draft: ApplicationDraft) -> (r: Result<
        Application,
        EngineError,
    >)
        ensures
            match r {
                Ok(a) => {
                    &&& submit_outcome(
                        old(self)@.users,
                        old(self)@.applications,
                        caller@,
                        draft@,
                    ) == Ok::<ApplicationView, EngineError>(a@)
                    &&& a@ == filled_application(draft@)
                    &&& final(self)@.applications == old(self)@.applications.insert(
                        draft.application_id@,
                        filled_application(draft@),
                    )
                    &&& final(self)@.users == old(self)@.users
                },
                Err(e) => {
                    &&& submit_outcome(
                        old(self)@.users,
                        old(self)@.applications,
                        caller@,
                        draft@,
                    ) == Err::<ApplicationView, EngineError>(e)
                    &&& final(self)@ == old(self)@
                },
            },
    {
        if !draft.is_well_formed() {
            return Err(EngineError::ValidationError);
        }
        if self.applications.contains(&draft.application_id) {
            return Err(EngineError::AlreadyExists);
        }
        match self.users.get(caller) {
            None => {
                return Err(EngineError::UnauthenticatedCaller);
            },
            Some(sender) => {
                if !caller_has_role(sender, Role::Enterprise) {
                    return Err(EngineError::PermissionDenied);
                }
            },
        }
        let application = Application {
            application_id: draft.application_id,
            application_type: draft.application_type,
            application_entity: draft.application_entity,
            enterprise: draft.enterprise,
            time_stamp: draft.time_stamp,
            data: draft.data,
            permission: draft.permission,
            result: PENDING,
            reason: String::new(),
        };
        proof {
            assert(application@ =~= filled_application(draft@));
        }
        let stored = application.clone();
        let key = application.application_id.clone();
        self.applications.put(key, stored);
        Ok(application)
    }

    /// Replace the stored application named by `updated` with `updated`
    /// itself; authorization is membership of `caller` in the updated
    /// record's own permission list, and any field may change.
    pub fn audit(&mut self, caller: &String, updated: Application) -> (r: Result<
        Application,
        EngineError,
    >)
        ensures
            match r {
                Ok(a) => {
                    &&& audit_outcome(old(self)@.applications, caller@, updated@) == Ok::<
                        ApplicationView,
                        EngineError,
                    >(updated@)
                    &&& a@ == updated@
                    &&& final(self)@.applications == old(self)@.applications.insert(
                        updated.application_id@,
                        updated@,
                    )
                    &&& final(self)@.users == old(self)@.users
                },
                Err(e) => {
                    &&& audit_outcome(old(self)@.applications, caller@, updated@) == Err::<
                        ApplicationView,
                        EngineError,
                    >(e)
                    &&& final(self)@ == old(self)@
                },
            },
    {
        if !caller_is_permitted(caller, &updated.permission) {
            return Err(EngineError::PermissionDenied);
        }
        if !self.applications.contains(&updated.application_id) {
            return Err(EngineError::NotFound);
        }
        let stored = updated.clone();
        let key = updated.application_id.clone();
        self.applications.put(key, stored);
        Ok(updated)
    }

    /// The stored application under `application_id`, unchanged, for a
    /// caller on its permission list. Reads never mutate the store.
    pub fn read(&self, caller: &String, application_id: &String) -> (r: Result<
        Application,
        EngineError,
    >)
        ensures
            match r {
                Ok(a) => read_outcome(self@.applications, caller@, application_id@) == Ok::<
                    ApplicationView,
                    EngineError,
                >(a@),
                Err(e) => read_outcome(self@.applications, caller@, application_id@) == Err::<
                    ApplicationView,
                    EngineError,
                >(e),
            },
    {
        match self.applications.get(application_id) {
            None => Err(EngineError::NotFound),
            Some(found) => {
                if !caller_is_permitted(caller, &found.permission) {
                    Err(EngineError::PermissionDenied)
                } else {
                    Ok(found.clone())
                }
            },
        }
    }

    /// Dispatch a decoded request to its operation and wrap the result in
    /// the structured record the logging collaborator captures. Errors pass
    /// through unchanged, and a failed request leaves the store as it was.
    pub fn execute(&mut self, caller: &String, request: Request) -> (r: Result<Event, EngineError>)
        ensures
            request matches Request::RegisterUser { user } ==> (match r {
                Ok(ev) => {
                    &&& ev.operation@ == "create_user"@
                    &&& ev.entity matches Entity::User(u) && u@ == user@
                    &&& register_outcome(old(self)@.users, caller@, user@) == Ok::<
                        UserView,
                        EngineError,
                    >(user@)
                    &&& final(self)@.users == old(self)@.users.insert(user.address@, user@)
                    &&& final(self)@.applications == old(self)@.applications
                },
                Err(e) => {
                    &&& register_outcome(old(self)@.users, caller@, user@) == Err::<
                        UserView,
                        EngineError,
                    >(e)
                    &&& final(self)@ == old(self)@
                },
            }),
            request matches Request::SubmitApplication { draft } ==> (match r {
                Ok(ev) => {
                    &&& ev.operation@ == "create_application"@
                    &&& ev.entity matches Entity::Application(a) && a@ == filled_application(
                        draft@,
                    )
                    &&& submit_outcome(
                        old(self)@.users,
                        old(self)@.applications,
                        caller@,
                        draft@,
                    ) == Ok::<ApplicationView, EngineError>(filled_application(draft@))
                    &&& final(self)@.applications == old(self)@.applications.insert(
                        draft.application_id@,
                        filled_application(draft@),
                    )
                    &&& final(self)@.users == old(self)@.users
                },
                Err(e) => {
                    &&& submit_outcome(
                        old(self)@.users,
                        old(self)@.applications,
                        caller@,
                        draft@,
                    ) == Err::<ApplicationView, EngineError>(e)
                    &&& final(self)@ == old(self)@
                },
            }),
            request matches Request::AuditApplication { application } ==> (match r {
                Ok(ev) => {
                    &&& ev.operation@ == "audit_application"@
                    &&& ev.entity matches Entity::Application(a) && a@ == application@
                    &&& audit_outcome(old(self)@.applications, caller@, application@) == Ok::<
                        ApplicationView,
                        EngineError,
                    >(application@)
                    &&& final(self)@.applications == old(self)@.applications.insert(
                        application.application_id@,
                        application@,
                    )
                    &&& final(self)@.users == old(self)@.users
                },
                Err(e) => {
                    &&& audit_outcome(old(self)@.applications, caller@, application@) == Err::<
                        ApplicationView,
                        EngineError,
                    >(e)
                    &&& final(self)@ == old(self)@
                },
            }),
            request matches Request::ReadApplication { application_id } ==> final(self)@ == old(
                self,
            )@ && (match r {
                Ok(ev) => {
                    &&& ev.operation@ == "read_application"@
                    &&& ev.entity matches Entity::Application(a) && read_outcome(
                        old(self)@.applications,
                        caller@,
                        application_id@,
                    ) == Ok::<ApplicationView, EngineError>(a@)
                },
                Err(e) => read_outcome(old(self)@.applications, caller@, application_id@) == Err::<
                    ApplicationView,
                    EngineError,
                >(e),
            }),
    {
        match request {
            Request::RegisterUser { user } => {
                match self.register(caller, user) {
                    Ok(u) => Ok(
                        Event { operation: "create_user".to_owned(), entity: Entity::User(u) },
                    ),
                    Err(e) => Err(e),
                }
            },
            Request::SubmitApplication { draft } => {
                match self.submit(caller, draft) {
                    Ok(a) => Ok(
                        Event {
                            operation: "create_application".to_owned(),
                            entity: Entity::Application(a),
                        },
                    ),
                    Err(e) => Err(e),
                }
            },
            Request::AuditApplication { application } => {
                match self.audit(caller, application) {
                    Ok(a) => Ok(
                        Event {
                            operation: "audit_application".to_owned(),
                            entity: Entity::Application(a),
                        },
                    ),
                    Err(e) => Err(e),
                }
            },
            Request::ReadApplication { application_id } => {
                match self.read(caller, &application_id) {
                    Ok(a) => Ok(
                        Event {
                            operation: "read_application".to_owned(),
                            entity: Entity::Application(a),
                        },
                    ),
                    Err(e) => Err(e),
                }
            },
        }
    }
}

} // verus!
