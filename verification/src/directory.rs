//! Users, friends and groups: the answers to the directory's requests, and the
//! list edits they ask of the store.
//!
//! The store itself is outside. Each function here takes what the store said
//! and decides what is answered or written next.

use vstd::prelude::*;
use crate::roster::GroupCache;
use crate::recency::after_removal;

verus! {

/// How an operation without a result of its own ended.
#[derive(Clone, Copy, Debug, PartialEq, Eq, Structural)]
pub enum OperationState {
    Done,
    Failed,
}

/// How a query for users ended.
#[derive(Clone, Copy, Debug, PartialEq, Eq, Structural)]
pub enum UserInfoQueryState {
    Found,
    Error,
}

/// How a query for friends ended.
#[derive(Clone, Copy, Debug, PartialEq, Eq, Structural)]
pub enum FriendsInfoQueryState {
    Listed,
    Error,
}

/// How adding a friend ended.
#[derive(Clone, Copy, Debug, PartialEq, Eq, Structural)]
pub enum AddFriendState {
    Added,
    Error,
    AlreadyFriend,
}

/// How creating a group ended.
#[derive(Clone, Copy, Debug, PartialEq, Eq, Structural)]
pub enum GroupNewState {
    Created,
    NotLogin,
    TooShortGroupName,
    OtherError,
}

/// A user as others see them.
#[derive(Debug)]
pub struct UserInfo {
    pub user_id: i64,
    pub user_name: String,
    pub avatar: String,
}

/// A group as its members see it.
#[derive(Debug)]
pub struct Group {
    pub group_id: i64,
    pub group_name: String,
}

/// A request for one user.
#[derive(Clone, Copy, Debug, PartialEq, Eq, Structural)]
pub struct UserInfoRequest {
    pub user_id: u64,
}

/// The answer to a request for one user.
#[derive(Debug)]
pub struct UserInfoResult {
    pub state: UserInfoQueryState,
    pub info: Option<UserInfo>,
}

/// The answer to a request for the groups of the asking user.
#[derive(Debug)]
pub struct UserGroupsResult {
    pub state: UserInfoQueryState,
    pub groups: Option<Vec<Group>>,
}

/// A list of friends.
#[derive(Debug)]
pub struct FriendsInfo {
    pub friends: Vec<UserInfo>,
}

/// The answer to a request for the friends of the asking user.
#[derive(Debug)]
pub struct FriendsInfoResult {
    pub state: FriendsInfoQueryState,
    pub info: Option<FriendsInfo>,
}

/// The answer to a request to add a friend.
#[derive(Debug)]
pub struct AddFriendResult {
    pub state: AddFriendState,
    pub info: Option<FriendsInfo>,
}

/// The answer to a request to create a group.
#[derive(Clone, Copy, Debug, PartialEq, Eq, Structural)]
pub struct GroupNewRespone {
    pub state: GroupNewState,
    pub group_id: Option<u64>,
}

/// The answer to a request to join a group.
#[derive(Clone, Copy, Debug, PartialEq, Eq, Structural)]
pub struct GroupAddMemberResult {
    pub state: OperationState,
}

/// The two friend lists to write when a friendship is made.
#[derive(Debug)]
pub struct FriendshipEdit {
    /// The asking user's friends, the new friend among them.
    pub own: Vec<i64>,
    /// The new friend's friends, the asking user among them.
    pub theirs: Vec<i64>,
}

/// A list with `id` in it: the list itself where it holds `id`, else the list
/// with `id` at its end.
pub open spec fn with_id(list: Seq<i64>, id: i64) -> Seq<i64> {
    if list.contains(id) {
        list
    } else {
        list.push(id)
    }
}

/// Whether `list` holds `id`.
pub fn holds_id(list: &Vec<i64>, id: i64) -> (found: bool)
    ensures
        found == list@.contains(id),
{
    let mut i: usize = 0;
    while i < list.len()
        invariant
            i <= list.len(),
            forall|j: int| 0 <= j < i ==> list@[j] != id,
        decreases list.len() - i,
    {
        if list[i] == id {
            return true;
        }
        i += 1;
    }
    false
}

/// Adds `new_user_id` to a group's member list unless it is there already, and
/// says whether the list changed and so has to be written.
pub fn group_add_user(members: &mut Vec<i64>, new_user_id: i64) -> (changed: bool)
    ensures
        changed == !old(members)@.contains(new_user_id),
        final(members)@ == with_id(old(members)@, new_user_id),
{
    if holds_id(members, new_user_id) {
        false
    } else {
        members.push(new_user_id);
        true
    }
}

/// Tells the membership cache that the members of `group_id` were written
/// anew: the cached list is forgotten, so the next lookup fetches.
pub fn membership_changed(groups: &mut GroupCache, group_id: u64)
    requires
        old(groups).wf(),
    ensures
        final(groups).wf(),
        final(groups).capacity() == old(groups).capacity(),
        final(groups).entries() == after_removal(old(groups).entries(), group_id),
        final(groups).members_of(group_id).is_none(),
        forall|other: u64|
            other != group_id ==> final(groups).members_of(other) == old(groups).members_of(other),
{
    groups.invalidate(group_id);
}

/// Answers a request for one user with the store's row, or with an error
/// where the store had none.
pub fn query_user_info(row: Option<UserInfo>) -> (answer: UserInfoResult)
    ensures
        answer.info == row,
        answer.state == (if row.is_some() {
            UserInfoQueryState::Found
        } else {
            UserInfoQueryState::Error
        }),
{
    match row {
        Some(info) => UserInfoResult { state: UserInfoQueryState::Found, info: Some(info) },
        None => UserInfoResult { state: UserInfoQueryState::Error, info: None },
    }
}

/// Answers a request of a user for themselves: an error for a request without
/// a valid session, else as [`query_user_info`].
pub fn query_user_this(user: Option<u64>, row: Option<UserInfo>) -> (answer: UserInfoResult)
    ensures
        answer.info == (if user.is_some() {
            row
        } else {
            None
        }),
        answer.state == (if user.is_some() && row.is_some() {
            UserInfoQueryState::Found
        } else {
            UserInfoQueryState::Error
        }),
{
    match user {
        Some(_) => query_user_info(row),
        None => UserInfoResult { state: UserInfoQueryState::Error, info: None },
    }
}

/// Answers a request for the asking user's groups: an error without a valid
/// session or where the store could not list them, else the groups found.
pub fn query_user_groups(user: Option<u64>, groups: Option<Vec<Group>>) -> (answer:
    UserGroupsResult)
    ensures
        answer.groups == (if user.is_some() {
            groups
        } else {
            None
        }),
        answer.state == (if user.is_some() && groups.is_some() {
            UserInfoQueryState::Found
        } else {
            UserInfoQueryState::Error
        }),
{
    match (user, groups) {
        (Some(_), Some(found)) => UserGroupsResult {
            state: UserInfoQueryState::Found,
            groups: Some(found),
        },
        _ => UserGroupsResult { state: UserInfoQueryState::Error, groups: None },
    }
}

/// Answers a request for the asking user's friends: an error without a valid
/// session; else the friends found, and none where the store could not list
/// them.
pub fn query_friends_info(user: Option<u64>, friends: Option<Vec<UserInfo>>) -> (answer:
    FriendsInfoResult)
    ensures
        match user {
            Some(_) => {
                &&& answer.state == FriendsInfoQueryState::Listed
                &&& answer.info matches Some(info)
                &&& info.friends@ == (match friends {
                    Some(found) => found@,
                    None => Seq::<UserInfo>::empty(),
                })
            },
            None => answer.state == FriendsInfoQueryState::Error && answer.info.is_none(),
        },
{
    match user {
        Some(_) => {
            let found = match friends {
                Some(found) => found,
                None => Vec::new(),
            };
            FriendsInfoResult {
                state: FriendsInfoQueryState::Listed,
                info: Some(FriendsInfo { friends: found }),
            }
        },
        None => FriendsInfoResult { state: FriendsInfoQueryState::Error, info: None },
    }
}

/// Plans a friendship between the asking user and `friend_id`, given both
/// users' friend lists as the store has them (`None` where it could not read
/// one). Without a valid session or without either list nothing is written;
/// else each list gets the other user unless it has them already.
pub fn user_add_friend(
    user: Option<i64>,
    friend_id: i64,
    own: Option<Vec<i64>>,
    theirs: Option<Vec<i64>>,
) -> (edit: Option<FriendshipEdit>)
    ensures
        match (user, own, theirs) {
            (Some(me), Some(mine), Some(others)) => {
                &&& edit matches Some(lists)
                &&& lists.own@ == with_id(mine@, friend_id)
                &&& lists.theirs@ == with_id(others@, me)
            },
            _ => edit.is_none(),
        },
{
    match (user, own, theirs) {
        (Some(me), Some(mine), Some(others)) => {
            let mut mine = mine;
            let mut others = others;
            let _ = group_add_user(&mut mine, friend_id);
            let _ = group_add_user(&mut others, me);
            Some(FriendshipEdit { own: mine, theirs: others })
        },
        _ => None,
    }
}

/// Concludes a friendship once both lists were written (`written`) and the
/// asking user's friends were read again.
pub fn friendship_made(written: bool, friends: Option<Vec<UserInfo>>) -> (answer: AddFriendResult)
    ensures
        match friends {
            Some(found) if written => {
                &&& answer.state == AddFriendState::Added
                &&& answer.info matches Some(info)
                &&& info.friends@ == found@
            },
            _ => answer.state == AddFriendState::Error && answer.info.is_none(),
        },
{
    match friends {
        Some(found) => {
            if written {
                AddFriendResult {
                    state: AddFriendState::Added,
                    info: Some(FriendsInfo { friends: found }),
                }
            } else {
                AddFriendResult { state: AddFriendState::Error, info: None }
            }
        },
        None => AddFriendResult { state: AddFriendState::Error, info: None },
    }
}

/// Vets a request to create a group: the asking user must have a valid
/// session and the name must not be empty. `Ok` holds the user who will host
/// the group and be its first member.
pub fn new_group(user: Option<u64>, group_name: &str) -> (host: Result<u64, GroupNewRespone>)
    ensures
        host == (match user {
            None => Err::<u64, GroupNewRespone>(
                GroupNewRespone { state: GroupNewState::NotLogin, group_id: None },
            ),
            Some(id) => if group_name@.len() == 0 {
                Err::<u64, GroupNewRespone>(
                    GroupNewRespone { state: GroupNewState::TooShortGroupName, group_id: None },
                )
            } else {
                Ok::<u64, GroupNewRespone>(id)
            },
        }),
{
    match user {
        None => Err(GroupNewRespone { state: GroupNewState::NotLogin, group_id: None }),
        Some(id) => {
            if group_name.is_empty() {
                Err(GroupNewRespone { state: GroupNewState::TooShortGroupName, group_id: None })
            } else {
                Ok(id)
            }
        },
    }
}

/// Concludes the creation of a group with the identifier the store gave it,
/// or with an error where the store gave none.
pub fn group_created(group_id: Option<u64>) -> (answer: GroupNewRespone)
    ensures
        answer.group_id == group_id,
        answer.state == (if group_id.is_some() {
            GroupNewState::Created
        } else {
            GroupNewState::OtherError
        }),
{
    match group_id {
        Some(id) => GroupNewRespone { state: GroupNewState::Created, group_id: Some(id) },
        None => GroupNewRespone { state: GroupNewState::OtherError, group_id: None },
    }
}

/// What joining a group asks of the store next.
#[derive(Debug)]
pub enum JoinStep {
    /// Answer with an error: no valid session, or the user's groups could not
    /// be read.
    Refuse(GroupAddMemberResult),
    /// Write this list as the user's groups, then add the user to the group.
    WriteGroups(Vec<i64>),
    /// The user's list holds the group already: add the user to the group.
    AddToGroup,
}

/// Plans a user's joining of `group_id`, given the user's groups as the store
/// has them (`None` where it could not read them).
pub fn group_add_member(user: Option<u64>, group_id: i64, groups: Option<Vec<i64>>) -> (step:
    JoinStep)
    ensures
        match (user, groups) {
            (Some(_), Some(joined)) => if joined@.contains(group_id) {
                step is AddToGroup
            } else {
                step matches JoinStep::WriteGroups(list) && list@ == joined@.push(group_id)
            },
            _ => step == JoinStep::Refuse(GroupAddMemberResult { state: OperationState::Failed }),
        },
{
    match (user, groups) {
        (Some(_), Some(joined)) => {
            let mut joined = joined;
            if group_add_user(&mut joined, group_id) {
                JoinStep::WriteGroups(joined)
            } else {
                JoinStep::AddToGroup
            }
        },
        _ => JoinStep::Refuse(GroupAddMemberResult { state: OperationState::Failed }),
    }
}

/// Concludes a user's joining of a group: it succeeded when every write did.
pub fn group_joined(written: bool) -> (answer: GroupAddMemberResult)
    ensures
        answer.state == (if written {
            OperationState::Done
        } else {
            OperationState::Failed
        }),
{
    if written {
        GroupAddMemberResult { state: OperationState::Done }
    } else {
        GroupAddMemberResult { state: OperationState::Failed }
    }
}

} // verus!
