use vstd::prelude::*;

verus! {

/// What a registry is created with: its owner and its first members, taken as given.
#[derive(Debug, Clone, PartialEq, Eq)]
pub struct InstantiateMsg {
    pub owner: String,
    pub users: Vec<String>,
}

/// The operations that change a registry; only its owner may issue them.
#[derive(Debug, Clone, PartialEq, Eq)]
pub enum ExecuteMsg {
    AddUser { user: String },
    RemoveUser { user: String },
}

/// The operations that read a registry; anyone may issue them.
#[derive(Debug, Clone, PartialEq, Eq)]
pub enum QueryMsg {
    GetUsers {},
    GetUser { user: String },
}

/// Every member, in stored order.
#[derive(Debug, Clone, PartialEq, Eq)]
pub struct UsersResponse {
    pub users: Vec<String>,
}

/// Whether a name is a member.
#[derive(Debug, Clone, PartialEq, Eq)]
pub struct ExistResponse {
    pub exist: bool,
}

/// The answer to a query, one variant for each query.
#[derive(Debug, Clone, PartialEq, Eq)]
pub enum QueryResponse {
    Users(UsersResponse),
    Exist(ExistResponse),
}

} // verus!
