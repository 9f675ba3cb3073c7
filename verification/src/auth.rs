//! Role authorization: the closed role enumeration, its wire tags, and the
//! membership tests the registries rely on.

use vstd::prelude::*;

verus! {

/// The closed set of capability tags a user may hold.
#[derive(Clone, Copy, PartialEq, Eq, Structural, Debug)]
pub enum Role {
    System,
    Enterprise,
    Government,
    Bank,
}

impl Role {
    /// The wire tag that names this role inside a user's role list.
    pub open spec fn spec_tag(self) -> Seq<char> {
        match self {
            Role::System => "ROLE_0001"@,
            Role::Enterprise => "ROLE_0002"@,
            Role::Government => "ROLE_0003"@,
            Role::Bank => "ROLE_0004"@,
        }
    }

    pub fn tag(self) -> (r: &'static str)
        ensures
            r@ == self.spec_tag(),
    {
        match self {
            Role::System => "ROLE_0001",
            Role::Enterprise => "ROLE_0002",
            Role::Government => "ROLE_0003",
            Role::Bank => "ROLE_0004",
        }
    }
}

/// The reserved organization value that every SYSTEM-role user must carry.
pub open spec fn system_org() -> Seq<char> {
    "SYSTEM"@
}

pub fn system_org_value() -> (r: &'static str)
    ensures
        r@ == system_org(),
{
    "SYSTEM"
}

/// The reserved identifier given to the bootstrap user.
pub open spec fn system_user_id() -> Seq<char> {
    "SYSTEM"@
}

pub fn system_user_id_value() -> (r: &'static str)
    ensures
        r@ == system_user_id(),
{
    "SYSTEM"
}

/// A tag is valid when it names one of the four enumerated roles.
pub open spec fn valid_role_tag(t: Seq<char>) -> bool {
    ||| t == Role::System.spec_tag()
    ||| t == Role::Enterprise.spec_tag()
    ||| t == Role::Government.spec_tag()
    ||| t == Role::Bank.spec_tag()
}

/// Every entry of `roles` is one of the four enumerated role tags.
pub open spec fn valid_role_set(roles: Seq<Seq<char>>) -> bool {
    forall|i: int| 0 <= i < roles.len() ==> valid_role_tag(#[trigger] roles[i])
}

/// A role list grants `role` when it contains the role's tag.
pub open spec fn has_role(roles: Seq<Seq<char>>, role: Role) -> bool {
    roles.contains(role.spec_tag())
}

/// Parse a tag into its role; `None` for anything outside the enumeration.
pub fn role_of_tag(t: &String) -> (r: Option<Role>)
    ensures
        match r {
            Some(role) => t@ == role.spec_tag(),
            None => !valid_role_tag(t@),
        },
{
    if *t == Role::System.tag().to_owned() {
        Some(Role::System)
    } else if *t == Role::Enterprise.tag().to_owned() {
        Some(Role::Enterprise)
    } else if *t == Role::Government.tag().to_owned() {
        Some(Role::Government)
    } else if *t == Role::Bank.tag().to_owned() {
        Some(Role::Bank)
    } else {
        None
    }
}

/// Every tag in `roles` is one of the four enumerated roles.
pub fn is_valid_role_set(roles: &Vec<String>) -> (b: bool)
    ensures
        b == valid_role_set(roles.deep_view()),
{
    let mut i: usize = 0;
    while i < roles.len()
        invariant
            i <= roles.len(),
            forall|j: int| 0 <= j < i ==> valid_role_tag(#[trigger] roles.deep_view()[j]),
        decreases roles.len() - i,
    {
        if role_of_tag(&roles[i]).is_none() {
            assert(!valid_role_tag(roles.deep_view()[i as int]));
            return false;
        }
        i += 1;
    }
    true
}

/// `s` occurs in `v`.
fn contains_string(v: &Vec<String>, s: &String) -> (b: bool)
    ensures
        b == v.deep_view().contains(s@),
{
    let mut i: usize = 0;
    while i < v.len()
        invariant
            i <= v.len(),
            forall|j: int| 0 <= j < i ==> #[trigger] v.deep_view()[j] != s@,
        decreases v.len() - i,
    {
        if v[i] == *s {
            assert(v.deep_view()[i as int] == s@);
            return true;
        }
        i += 1;
    }
    assert(forall|j: int| 0 <= j < v.deep_view().len() ==> #[trigger] v.deep_view()[j] != s@);
    false
}

/// Membership test on a caller's stored role list.
pub fn caller_has_role(caller: &crate::state::User, role: Role) -> (b: bool)
    ensures
        b == has_role(caller@.role, role),
{
    contains_string(&caller.role, &role.tag().to_owned())
}

/// Membership test on an application's permission list.
pub fn caller_is_permitted(caller_address: &String, permission: &Vec<String>) -> (b: bool)
    ensures
        b == permission.deep_view().contains(caller_address@),
{
    contains_string(permission, caller_address)
}

} // verus!
