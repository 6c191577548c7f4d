//! Bans and warnings, as rows of the `bans` and `warnings` tables and as records to insert.

use vstd::prelude::*;

verus! {

/// A row of the `bans` table. `lifted` is 0 while the ban stands, else the time it was lifted.
#[derive(Debug)]
pub struct Ban {
    pub id: i32,
    pub banned_user_id: i32,
    pub admin_user_id: i32,
    pub guild_id: i64,
    pub reason: String,
    pub ban_time: i64,
    pub end_time: i64,
    pub lifted: i64,
}

/// A ban to insert into the `bans` table.
#[derive(Debug)]
pub struct NewBan {
    pub banned_user_id: i32,
    pub admin_user_id: i32,
    pub guild_id: i64,
    pub reason: String,
    pub ban_time: i64,
    pub end_time: i64,
}

/// A row of the `warnings` table.
#[derive(Debug)]
pub struct Warning {
    pub id: i32,
    pub admin_user_id: i32,
    pub warned_user_id: i32,
    pub guild_id: i64,
    pub reason: String,
    pub warning_time: i64,
}

/// A warning to insert into the `warnings` table.
#[derive(Debug)]
pub struct NewWarning {
    pub admin_user_id: i32,
    pub warned_user_id: i32,
    pub guild_id: i64,
    pub reason: String,
    pub warning_time: i64,
}

} // verus!
