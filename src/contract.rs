use vstd::prelude::*;

use crate::error::ContractError;
use crate::msg::{ExecuteMsg, ExistResponse, InstantiateMsg, QueryMsg, QueryResponse, UsersResponse};
use crate::state::State;
use crate::validate::{name_check, validate_name};

verus! {

/// The result of adding `user` on behalf of `sender`, and the members afterwards.
pub open spec fn add_outcome(
    owner: Seq<char>,
    members: Seq<Seq<char>>,
    sender: Seq<char>,
    user: Seq<char>,
) -> (Result<(), ContractError>, Seq<Seq<char>>) {
    if sender != owner {
        (Err(ContractError::Unauthorized), members)
    } else if name_check(user) is Err {
        (name_check(user), members)
    } else {
        (Ok(()), members.push(user))
    }
}

/// The result of removing `user` on behalf of `sender`, and the members afterwards.
/// Only the first occurrence counts, and a first member is never taken out.
pub open spec fn remove_outcome(
    owner: Seq<char>,
    members: Seq<Seq<char>>,
    sender: Seq<char>,
    user: Seq<char>,
) -> (Result<(), ContractError>, Seq<Seq<char>>) {
    if sender != owner {
        (Err(ContractError::Unauthorized), members)
    } else {
        match members.index_of_first(user) {
            None => (Err(ContractError::MemberNotFound), members),
            Some(i) => if i == 0 {
                (Ok(()), members)
            } else {
                (Ok(()), members.remove(i))
            },
        }
    }
}

/// Creates a registry with the given owner and members, as given.
pub fn instantiate(msg: InstantiateMsg) -> (r: State)
    ensures
        r.owner@ == msg.owner@,
        r.members() == msg.users@.map_values(|u: String| u@),
{
    State { users: msg.users, owner: msg.owner }
}

/// Appends `user` to the members, if `sender` is the owner and `user` is a valid name.
pub fn add_user(state: &mut State, sender: &String, user: String) -> (r: Result<(), ContractError>)
    ensures
        (r, final(state).members()) == add_outcome(
            old(state).owner@,
            old(state).members(),
            sender@,
            user@,
        ),
        final(state).owner == old(state).owner,
        sender@ != old(state).owner@ ==> r == Err::<(), ContractError>(ContractError::Unauthorized)
            && final(state).members() == old(state).members(),
{
    if *sender != state.owner {
        return Err(ContractError::Unauthorized);
    }
    match validate_name(user.as_str()) {
        Err(e) => Err(e),
        Ok(()) => {
            state.users.push(user);
            proof {
                assert(state.members() =~= old(state).members().push(user@));
            }
            Ok(())
        },
    }
}

/// Removes the first occurrence of `user` from the members, if `sender` is the owner;
/// an occurrence at the front stays.
pub fn remove_user(state: &mut State, sender: &String, user: &String) -> (r: Result<(), ContractError>)
    ensures
        (r, final(state).members()) == remove_outcome(
            old(state).owner@,
            old(state).members(),
            sender@,
            user@,
        ),
        final(state).owner == old(state).owner,
        sender@ == old(state).owner@ && old(state).members().len() > 0
            && old(state).members()[0] == user@
            ==> r is Ok && final(state).members() == old(state).members(),
        forall|i: int|
            sender@ == old(state).owner@ && 0 < i < old(state).members().len()
                && #[trigger] old(state).members()[i] == user@
                && (forall|j: int| 0 <= j < i ==> old(state).members()[j] != user@)
                ==> r is Ok && final(state).members() == old(state).members().remove(i),
{
    if *sender != state.owner {
        return Err(ContractError::Unauthorized);
    }
    let ghost members = state.members();
    let n = state.users.len();
    let mut i: usize = 0;
    while i < n
        invariant
            n == state.users@.len(),
            members == state.members(),
            members == old(state).members(),
            *state == *old(state),
            sender@ == state.owner@,
            i <= n,
            forall|j: int| 0 <= j < i ==> members[j] != user@,
        decreases n - i,
    {
        if state.users[i] == *user {
            assert(members[i as int] == user@);
            assert(members.index_of_first(user@) == Some(i as int)) by {
                members.index_of_first_ensures(user@);
                assert(members.contains(user@));
            }
            if i > 0 {
                state.users.remove(i);
                assert(state.members() =~= members.remove(i as int));
            }
            return Ok(());
        }
        i += 1;
    }
    assert(members.index_of_first(user@) is None) by {
        members.index_of_first_ensures(user@);
    }
    Err(ContractError::MemberNotFound)
}

/// Applies a changing operation on behalf of `sender`. On an error the registry is as it was.
pub fn execute(state: &mut State, sender: &String, msg: ExecuteMsg) -> (r: Result<(), ContractError>)
    ensures
        final(state).owner == old(state).owner,
        r is Err ==> final(state).members() == old(state).members(),
        match msg {
            ExecuteMsg::AddUser { user } => (r, final(state).members()) == add_outcome(
                old(state).owner@,
                old(state).members(),
                sender@,
                user@,
            ),
            ExecuteMsg::RemoveUser { user } => (r, final(state).members()) == remove_outcome(
                old(state).owner@,
                old(state).members(),
                sender@,
                user@,
            ),
        },
{
    match msg {
        ExecuteMsg::AddUser { user } => add_user(state, sender, user),
        ExecuteMsg::RemoveUser { user } => remove_user(state, sender, &user),
    }
}

/// Every member, in stored order.
pub fn get_users(state: &State) -> (r: UsersResponse)
    ensures
        r.users@.map_values(|u: String| u@) == state.members(),
{
    let mut users: Vec<String> = Vec::new();
    let mut i: usize = 0;
    while i < state.users.len()
        invariant
            i <= state.users@.len(),
            users@.len() == i,
            forall|j: int| 0 <= j < i ==> #[trigger] users@[j]@ == state.users@[j]@,
        decreases state.users@.len() - i,
    {
        let u = state.users[i].clone();
        users.push(u);
        i += 1;
    }
    assert(users@.map_values(|u: String| u@) =~= state.members());
    UsersResponse { users }
}

/// Whether `user` is a member, at any position.
pub fn get_user(state: &State, user: &String) -> (r: ExistResponse)
    ensures
        r.exist == state.members().contains(user@),
{
    let mut i: usize = 0;
    while i < state.users.len()
        invariant
            i <= state.users@.len(),
            forall|j: int| 0 <= j < i ==> state.members()[j] != user@,
        decreases state.users@.len() - i,
    {
        if state.users[i] == *user {
            assert(state.members()[i as int] == user@);
            return ExistResponse { exist: true };
        }
        i += 1;
    }
    ExistResponse { exist: false }
}

/// Answers a query; the registry is only read.
pub fn query(state: &State, msg: QueryMsg) -> (r: QueryResponse)
    ensures
        match msg {
            QueryMsg::GetUsers {  } => r is Users && r->Users_0.users@.map_values(|u: String| u@)
                == state.members(),
            QueryMsg::GetUser { user } => r is Exist && r->Exist_0.exist == state.members().contains(
                user@,
            ),
        },
{
    match msg {
        QueryMsg::GetUsers {  } => QueryResponse::Users(get_users(state)),
        QueryMsg::GetUser { user } => QueryResponse::Exist(get_user(state, &user)),
    }
}

} // verus!
