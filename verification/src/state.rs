//! The entity model: users, applications and their embedded data items,
//! together with the mathematical views and well-formedness rules the
//! engine's contracts are stated over.

use vstd::prelude::*;

use crate::auth::valid_role_set;

verus! {

/// A registered participant. `address` is the store key and caller identity.
#[derive(Debug, PartialEq)]
pub struct User {
    /// Human-readable label; not the lookup key.
    pub user_id: String,
    /// Globally unique address; the lookup key and the caller identity.
    pub address: String,
    /// Organization the user belongs to.
    pub org: String,
    /// Role tags, each drawn from the closed role enumeration.
    pub role: Vec<String>,
}

/// Mathematical value of a [`User`].
#[verifier::ext_equal]
pub ghost struct UserView {
    pub user_id: Seq<char>,
    pub address: Seq<char>,
    pub org: Seq<char>,
    pub role: Seq<Seq<char>>,
}

impl View for User {
    type V = UserView;

    open spec fn view(&self) -> UserView {
        UserView {
            user_id: self.user_id@,
            address: self.address@,
            org: self.org@,
            role: self.role.deep_view(),
        }
    }
}

impl Clone for User {
    fn clone(&self) -> (r: Self)
        ensures
            r@ == self@,
    {
        User {
            user_id: self.user_id.clone(),
            address: self.address.clone(),
            org: self.org.clone(),
            role: clone_strings(&self.role),
        }
    }
}

/// A reference to one piece of off-store content, by name and content hash.
#[derive(Debug, PartialEq)]
pub struct Data {
    pub data_name: String,
    pub data_hash: String,
}

/// Mathematical value of a [`Data`] item.
#[verifier::ext_equal]
pub ghost struct DataView {
    pub data_name: Seq<char>,
    pub data_hash: Seq<char>,
}

impl View for Data {
    type V = DataView;

    open spec fn view(&self) -> DataView {
        DataView { data_name: self.data_name@, data_hash: self.data_hash@ }
    }
}

impl DeepView for Data {
    type V = DataView;

    open spec fn deep_view(&self) -> DataView {
        self.view()
    }
}

impl Clone for Data {
    fn clone(&self) -> (r: Self)
        ensures
            r@ == self@,
    {
        Data { data_name: self.data_name.clone(), data_hash: self.data_hash.clone() }
    }
}

/// A data-sharing request as persisted: a draft completed with an audit
/// status (`result`) and its explanation (`reason`).
#[derive(Debug, PartialEq)]
pub struct Application {
    /// Globally unique key of the application.
    pub application_id: String,
    /// Free-form classification.
    pub application_type: String,
    /// Entity the application concerns.
    pub application_entity: String,
    /// Submitting enterprise.
    pub enterprise: String,
    /// Positive submission timestamp.
    pub time_stamp: u64,
    /// References to the shared content.
    pub data: Vec<Data>,
    /// Addresses allowed to read or audit this application.
    pub permission: Vec<String>,
    /// Audit status: [`PENDING`], [`APPROVED`] or [`REJECTED`].
    pub result: u8,
    /// Context for a non-pending result.
    pub reason: String,
}

/// Audit status of a freshly submitted application.
pub const PENDING: u8 = 0;

/// Audit status of an approved application.
pub const APPROVED: u8 = 1;

/// Audit status of a rejected application.
pub const REJECTED: u8 = 2;

/// Mathematical value of an [`Application`].
#[verifier::ext_equal]
pub ghost struct ApplicationView {
    pub application_id: Seq<char>,
    pub application_type: Seq<char>,
    pub application_entity: Seq<char>,
    pub enterprise: Seq<char>,
    pub time_stamp: u64,
    pub data: Seq<DataView>,
    pub permission: Seq<Seq<char>>,
    pub result: u8,
    pub reason: Seq<char>,
}

impl View for Application {
    type V = ApplicationView;

    open spec fn view(&self) -> ApplicationView {
        ApplicationView {
            application_id: self.application_id@,
            application_type: self.application_type@,
            application_entity: self.application_entity@,
            enterprise: self.enterprise@,
            time_stamp: self.time_stamp,
            data: self.data.deep_view(),
            permission: self.permission.deep_view(),
            result: self.result,
            reason: self.reason@,
        }
    }
}

impl Clone for Application {
    fn clone(&self) -> (r: Self)
        ensures
            r@ == self@,
    {
        Application {
            application_id: self.application_id.clone(),
            application_type: self.application_type.clone(),
            application_entity: self.application_entity.clone(),
            enterprise: self.enterprise.clone(),
            time_stamp: self.time_stamp,
            data: clone_data(&self.data),
            permission: clone_strings(&self.permission),
            result: self.result,
            reason: self.reason.clone(),
        }
    }
}

/// A candidate application as handed to submission: everything but the audit
/// status, which submission itself fills in.
#[derive(Debug, PartialEq)]
pub struct ApplicationDraft {
    pub application_id: String,
    pub application_type: String,
    pub application_entity: String,
    pub enterprise: String,
    pub time_stamp: u64,
    pub data: Vec<Data>,
    pub permission: Vec<String>,
}

/// Mathematical value of an [`ApplicationDraft`].
#[verifier::ext_equal]
pub ghost struct ApplicationDraftView {
    pub application_id: Seq<char>,
    pub application_type: Seq<char>,
    pub application_entity: Seq<char>,
    pub enterprise: Seq<char>,
    pub time_stamp: u64,
    pub data: Seq<DataView>,
    pub permission: Seq<Seq<char>>,
}

impl View for ApplicationDraft {
    type V = ApplicationDraftView;

    open spec fn view(&self) -> ApplicationDraftView {
        ApplicationDraftView {
            application_id: self.application_id@,
            application_type: self.application_type@,
            application_entity: self.application_entity@,
            enterprise: self.enterprise@,
            time_stamp: self.time_stamp,
            data: self.data.deep_view(),
            permission: self.permission.deep_view(),
        }
    }
}

impl Clone for ApplicationDraft {
    fn clone(&self) -> (r: Self)
        ensures
            r@ == self@,
    {
        ApplicationDraft {
            application_id: self.application_id.clone(),
            application_type: self.application_type.clone(),
            application_entity: self.application_entity.clone(),
            enterprise: self.enterprise.clone(),
            time_stamp: self.time_stamp,
            data: clone_data(&self.data),
            permission: clone_strings(&self.permission),
        }
    }
}

/// A candidate user is acceptable for registration: no field is empty and
/// every role tag belongs to the enumeration.
pub open spec fn user_well_formed(u: UserView) -> bool {
    &&& u.user_id.len() > 0
    &&& u.address.len() > 0
    &&& u.org.len() > 0
    &&& u.role.len() > 0
    &&& valid_role_set(u.role)
}

/// A draft is acceptable for submission: every required field is present.
pub open spec fn draft_well_formed(d: ApplicationDraftView) -> bool {
    &&& d.enterprise.len() > 0
    &&& d.time_stamp > 0
    &&& d.application_id.len() > 0
    &&& d.application_entity.len() > 0
    &&& d.application_type.len() > 0
    &&& d.data.len() > 0
    &&& d.permission.len() > 0
}

impl User {
    /// Decides [`user_well_formed`] for this candidate.
    pub fn is_well_formed(&self) -> (b: bool)
        ensures
            b == user_well_formed(self@),
    {
        !self.user_id.as_str().is_empty() && !self.address.as_str().is_empty()
            && !self.org.as_str().is_empty() && self.role.len() > 0
            && crate::auth::is_valid_role_set(&self.role)
    }
}

impl ApplicationDraft {
    /// Decides [`draft_well_formed`] for this candidate.
    pub fn is_well_formed(&self) -> (b: bool)
        ensures
            b == draft_well_formed(self@),
    {
        !self.enterprise.as_str().is_empty() && self.time_stamp > 0
            && !self.application_id.as_str().is_empty()
            && !self.application_entity.as_str().is_empty()
            && !self.application_type.as_str().is_empty() && self.data.len() > 0
            && self.permission.len() > 0
    }
}

/// Element-wise copy of a string list, preserving its value.
fn clone_strings(v: &Vec<String>) -> (r: Vec<String>)
    ensures
        r.deep_view() == v.deep_view(),
        r@.len() == v@.len(),
{
    let mut r: Vec<String> = Vec::new();
    let mut i: usize = 0;
    while i < v.len()
        invariant
            i <= v.len(),
            r@.len() == i,
            forall|j: int| 0 <= j < i ==> #[trigger] r@[j]@ == v@[j]@,
        decreases v.len() - i,
    {
        r.push(v[i].clone());
        i += 1;
    }
    proof {
        assert(r.deep_view() =~= v.deep_view());
    }
    r
}

/// Element-wise copy of a data-item list, preserving its value.
fn clone_data(v: &Vec<Data>) -> (r: Vec<Data>)
    ensures
        r.deep_view() == v.deep_view(),
        r@.len() == v@.len(),
{
    let mut r: Vec<Data> = Vec::new();
    let mut i: usize = 0;
    while i < v.len()
        invariant
            i <= v.len(),
            r@.len() == i,
            forall|j: int| 0 <= j < i ==> #[trigger] r@[j]@ == v@[j]@,
        decreases v.len() - i,
    {
        r.push(v[i].clone());
        i += 1;
    }
    proof {
        assert(r.deep_view() =~= v.deep_view());
    }
    r
}

} // verus!
