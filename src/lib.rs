//! A registry of members kept by a single owner: the owner adds and removes
//! validated names, anyone may list the members or ask whether a name is one.

pub mod contract;
pub mod error;
pub mod msg;
pub mod state;
pub mod validate;

pub use contract::{add_user, execute, get_user, get_users, instantiate, query, remove_user};
pub use error::ContractError;
pub use msg::{ExecuteMsg, ExistResponse, InstantiateMsg, QueryMsg, QueryResponse, UsersResponse};
pub use state::State;
pub use validate::{invalid_char, validate_name, MAX_NAME_LENGTH, MIN_NAME_LENGTH};
