//! Groups, their members and invite links.
use vstd::prelude::*;
use crate::types::GroupRole;

verus! {

/// The most members a group may have.
pub const MAX_GROUP_MEMBERS: usize = 256;

/// A group. Instants are milliseconds since the Unix epoch.
#[derive(Debug, Clone)]
pub struct Group {
    pub id: u128,
    pub name: String,
    pub description: Option<String>,
    pub creator_id: u128,
    pub created_at_ms: i64,
    pub encrypted_avatar_key: Option<String>,
}

/// A member of a group.
#[derive(Debug, Clone)]
pub struct GroupMember {
    pub group_id: u128,
    pub member_id: u128,
    pub username: String,
    pub role: GroupRole,
    pub joined_at_ms: i64,
}

/// An invite link to a group.
#[derive(Debug, Clone)]
pub struct GroupInvite {
    pub group_id: u128,
    pub token: String,
    pub created_by: u128,
    pub expires_at_ms: i64,
}

/// A group member as the REST API returns it.
#[derive(Debug)]
pub struct GroupMemberResponse {
    pub account_id: u128,
    pub username: String,
    pub role: String,
}

/// A group with its members as the REST API returns it.
#[derive(Debug)]
pub struct GroupResponse {
    pub group_id: u128,
    pub name: String,
    pub members: Vec<GroupMemberResponse>,
    pub created_at: String,
}

/// A group's summary as the REST API returns it.
#[derive(Debug)]
pub struct GroupInfoResponse {
    pub group_id: u128,
    pub name: String,
    pub member_count: i64,
    pub created_at: String,
}

/// An invite link as the REST API returns it.
#[derive(Debug)]
pub struct InviteLinkResponse {
    pub link: String,
    pub token: String,
    pub expires_at: String,
}

/// The member count that a count query's first row gives: no row counts as zero.
pub fn member_count_of_row(row: Option<i64>) -> (n: i64)
    ensures
        n == (match row {
            Some(c) => c,
            None => 0,
        }),
{
    match row {
        Some(c) => c,
        None => 0,
    }
}

} // verus!
