//! Users of the bot: their coins, the daily reward, and the bans and warnings issued to them.

use vstd::prelude::*;
use crate::clock::{CLOCK_MAX, format_duration_secs, humantime_text, now_timestamp};
use crate::models::admin::{NewBan, NewWarning};

verus! {

/// Seconds that must pass after a claim of the daily reward before the next one.
pub const DAILY_COOLDOWN: i64 = 86400;

/// Coins that one claim of the daily reward grants.
pub const DAILY_REWARD: i32 = 20;

/// A row of the `users` table.
#[derive(Debug)]
pub struct User {
    pub id: i32,
    pub discord_id: i64,
    pub messages: i32,
    pub money: i32,
    pub daily_claimed: i64,
    pub bot_admin: bool,
}

/// A user to insert into the `users` table.
#[derive(Debug)]
pub struct NewUser {
    pub discord_id: i64,
}

/// The daily reward may be claimed at `now`: a full cooldown has passed since the last claim.
pub open spec fn daily_ready(user: User, now: int) -> bool {
    user.daily_claimed + DAILY_COOLDOWN <= now
}

/// Seconds left at `now` before the daily reward may be claimed again.
pub open spec fn daily_wait(user: User, now: int) -> int {
    user.daily_claimed + DAILY_COOLDOWN - now
}

/// The user after claiming the daily reward at `now`: the reward is added and the claim
/// time is `now`; nothing else changes.
pub open spec fn after_daily_claim(user: User, now: i64) -> User {
    User { money: (user.money + DAILY_REWARD) as i32, daily_claimed: now, ..user }
}

/// The arithmetic of a claim at `now` stays within the integer types.
pub open spec fn daily_claim_fits(user: User, now: int) -> bool {
    &&& user.daily_claimed + DAILY_COOLDOWN <= i64::MAX
    &&& daily_ready(user, now) ==> user.money + DAILY_REWARD <= i32::MAX
    &&& !daily_ready(user, now) ==> daily_wait(user, now) <= i64::MAX
}

/// What a claim of the daily reward at `now` does: if it is ready, the user becomes
/// `after_daily_claim(before, now)` and the answer is `Ok(true)`; otherwise the user is
/// unchanged and the answer is `Err` with the wait, written by humantime.
pub open spec fn daily_claim_outcome(
    before: User,
    after: User,
    answer: Result<bool, String>,
    now: i64,
) -> bool {
    if daily_ready(before, now as int) {
        &&& after == after_daily_claim(before, now)
        &&& answer == Ok::<bool, String>(true)
    } else {
        &&& after == before
        &&& answer matches Err(text) && text@ == humantime_text(daily_wait(before, now as int) as u64)
    }
}

/// What an attempt to claim the daily reward at `now` does: where the claim's arithmetic
/// fits, it answers `Some` of the claim's answer, as `daily_claim_outcome` says; elsewhere
/// it answers `None` and the user is unchanged.
pub open spec fn try_daily_claim_outcome(
    before: User,
    after: User,
    answer: Option<Result<bool, String>>,
    now: i64,
) -> bool {
    if daily_claim_fits(before, now as int) {
        answer matches Some(result) && daily_claim_outcome(before, after, result, now)
    } else {
        &&& answer is None
        &&& after == before
    }
}

/// The user with `money` coins; nothing else changes.
pub open spec fn with_money(user: User, money: i32) -> User {
    User { money: money, ..user }
}

/// The ban that `admin` issues at `now` on `user` in guild `guild_id`, for `duration` seconds.
pub open spec fn ban_record(
    user: User,
    guild_id: i64,
    admin: User,
    reason: String,
    duration: i64,
    now: i64,
) -> NewBan {
    NewBan {
        admin_user_id: admin.id,
        banned_user_id: user.id,
        guild_id: guild_id,
        reason: reason,
        ban_time: now,
        end_time: (now + duration) as i64,
    }
}

/// A ban that starts at `now` and lasts `duration` seconds ends within the `i64` range.
pub open spec fn ban_end_fits(now: int, duration: int) -> bool {
    i64::MIN <= now + duration <= i64::MAX
}

/// The ban issued at `now` where its end time fits in `i64`, else `None`.
pub open spec fn try_ban_record(
    user: User,
    guild_id: i64,
    admin: User,
    reason: String,
    duration: i64,
    now: i64,
) -> Option<NewBan> {
    if ban_end_fits(now as int, duration as int) {
        Some(ban_record(user, guild_id, admin, reason, duration, now))
    } else {
        None
    }
}

/// The warning that `admin` issues at `now` to `user` in guild `guild_id`.
pub open spec fn warning_record(
    user: User,
    admin: User,
    guild_id: i64,
    reason: String,
    now: i64,
) -> NewWarning {
    NewWarning {
        admin_user_id: admin.id,
        warned_user_id: user.id,
        guild_id: guild_id,
        reason: reason,
        warning_time: now,
    }
}

/// A claim of the daily reward at `now` shuts it for exactly one cooldown: no further
/// claim succeeds before `now + DAILY_COOLDOWN`, and one succeeds from then on. Each
/// successful claim grants exactly `DAILY_REWARD` coins.
pub proof fn lemma_daily_once_per_cooldown(user: User, now: i64, later: int)
    requires
        daily_ready(user, now as int),
        user.money + DAILY_REWARD <= i32::MAX,
    ensures
        after_daily_claim(user, now).money == user.money + DAILY_REWARD,
        daily_ready(after_daily_claim(user, now), later) <==> now + DAILY_COOLDOWN <= later,
{
}

/// While the reward is not ready, the wait the user is told is positive, and, where the
/// last claim is not later than `now`, at most one cooldown.
pub proof fn lemma_daily_wait_bounded(user: User, now: int)
    requires
        !daily_ready(user, now),
    ensures
        0 < daily_wait(user, now),
        user.daily_claimed <= now ==> daily_wait(user, now) <= DAILY_COOLDOWN,
{
}

/// Adding `amount` coins and then taking `amount` away leaves the user as before.
pub proof fn lemma_add_money_undone(user: User, amount: i32)
    requires
        i32::MIN <= user.money + amount <= i32::MAX,
    ensures
        ({
            let added = with_money(user, (user.money + amount) as i32);
            with_money(added, (added.money - amount) as i32) == user
        }),
{
}

/// A claim of the daily reward at `now` is decided and stamped by `now` alone: where its
/// arithmetic fits, it is granted exactly when at least `DAILY_COOLDOWN` seconds have passed
/// since the last claim; a granted claim adds exactly `DAILY_REWARD` coins, records `now` as
/// the claim time and changes nothing else; a refused claim changes nothing and answers
/// with humantime's writing of the seconds still to wait.
pub proof fn lemma_daily_claim_decided_by_now(
    before: User,
    after: User,
    answer: Option<Result<bool, String>>,
    now: i64,
)
    requires
        try_daily_claim_outcome(before, after, answer, now),
        before.daily_claimed + 86400 <= i64::MAX,
        before.daily_claimed + 86400 <= now ==> before.money + 20 <= i32::MAX,
        now < before.daily_claimed + 86400 ==> before.daily_claimed + 86400 - now <= i64::MAX,
    ensures
        answer is Some,
        (answer == Some(Ok::<bool, String>(true))) <==> before.daily_claimed + 86400 <= now,
        before.daily_claimed + 86400 <= now ==> {
            &&& after.money == before.money + 20
            &&& after.daily_claimed == now
            &&& after.id == before.id
            &&& after.discord_id == before.discord_id
            &&& after.messages == before.messages
            &&& after.bot_admin == before.bot_admin
        },
        now < before.daily_claimed + 86400 ==> {
            &&& after == before
            &&& answer matches Some(Err(text)) && text@ == humantime_text(
                (before.daily_claimed + 86400 - now) as u64,
            )
        },
{
}

/// A ban issued at `now` for `duration` seconds starts at `now`, ends exactly `duration`
/// seconds later, and records the banned user, the admin, the guild and the reason given.
pub proof fn lemma_ban_ends_after_duration(
    user: User,
    guild_id: i64,
    admin: User,
    reason: String,
    duration: i64,
    now: i64,
)
    requires
        i64::MIN <= now + duration <= i64::MAX,
    ensures
        try_ban_record(user, guild_id, admin, reason, duration, now) matches Some(ban) && {
            &&& ban.ban_time == now
            &&& ban.end_time == now + duration
            &&& ban.end_time - ban.ban_time == duration
            &&& ban.banned_user_id == user.id
            &&& ban.admin_user_id == admin.id
            &&& ban.guild_id == guild_id
            &&& ban.reason == reason
        },
        ban_record(user, guild_id, admin, reason, duration, now).end_time == now + duration,
        ban_record(user, guild_id, admin, reason, duration, now).ban_time == now,
{
}

/// A warning issued at `now` is stamped with `now` and records the warned user, the admin,
/// the guild and the reason given.
pub proof fn lemma_warning_stamped_now(user: User, admin: User, guild_id: i64, reason: String, now: i64)
    ensures
        warning_record(user, admin, guild_id, reason, now).warning_time == now,
        warning_record(user, admin, guild_id, reason, now).warned_user_id == user.id,
        warning_record(user, admin, guild_id, reason, now).admin_user_id == admin.id,
        warning_record(user, admin, guild_id, reason, now).guild_id == guild_id,
        warning_record(user, admin, guild_id, reason, now).reason == reason,
{
}

impl User {
    /// Claims the daily reward at time `now` (seconds since the epoch). It is granted when a
    /// full day has passed since the last claim; otherwise the answer says how long is left.
    pub fn claim_daily_at(&mut self, now: i64) -> (answer: Result<bool, String>)
        requires
            daily_claim_fits(*old(self), now as int),
        ensures
            daily_claim_outcome(*old(self), *final(self), answer, now),
    {
        if self.daily_claimed + DAILY_COOLDOWN <= now {
            self.add_money(DAILY_REWARD);
            self.daily_claimed = now;
            Ok(true)
        } else {
            let next_claim = self.daily_claimed + DAILY_COOLDOWN - now;
            Err(format_duration_secs(next_claim as u64))
        }
    }

    /// Claims the daily reward at time `now`, where the claim's arithmetic stays within the
    /// integer types (as `claim_daily_at` does); answers `None`, leaving the user as it was,
    /// exactly where it would not.
    pub fn try_claim_daily_at(&mut self, now: i64) -> (answer: Option<Result<bool, String>>)
        ensures
            try_daily_claim_outcome(*old(self), *final(self), answer, now),
            answer == Some(Ok::<bool, String>(true)) ==> final(self).daily_claimed == now
                && final(self).money == old(self).money + 20
                && old(self).daily_claimed + 86400 <= now,
            now < old(self).daily_claimed + 86400 ==> *final(self) == *old(self),
    {
        if self.daily_claimed > i64::MAX - DAILY_COOLDOWN {
            return None;
        }
        if self.daily_claimed + DAILY_COOLDOWN <= now {
            if self.money > i32::MAX - DAILY_REWARD {
                return None;
            }
        } else if now < 0 && self.daily_claimed + DAILY_COOLDOWN > i64::MAX + now {
            return None;
        }
        let answer = self.claim_daily_at(now);
        Some(answer)
    }

    /// Claims the daily reward at the time the clock shows (a reading in `0..=CLOCK_MAX`).
    /// It answers `None`, leaving the user as it was, exactly where the claim's arithmetic
    /// would leave the integer types: where the last claim is less than a cooldown before
    /// the end of `i64`, or where the reward is due and would push the balance past `i32`.
    pub fn claim_daily(&mut self) -> (answer: Option<Result<bool, String>>)
        ensures
            exists|now: i64|
                0 <= now <= CLOCK_MAX
                && try_daily_claim_outcome(*old(self), *final(self), answer, now),
            old(self).daily_claimed <= i64::MAX - DAILY_COOLDOWN
                && old(self).money <= i32::MAX - DAILY_REWARD ==> answer is Some,
            old(self).daily_claimed > i64::MAX - DAILY_COOLDOWN ==> answer is None,
    {
        let now = now_timestamp();
        self.try_claim_daily_at(now)
    }

    /// Adds `amount` coins (a negative amount takes coins away).
    pub fn add_money(&mut self, amount: i32)
        requires
            i32::MIN <= old(self).money + amount <= i32::MAX,
        ensures
            *final(self) == with_money(*old(self), (old(self).money + amount) as i32),
    {
        self.set_money(self.money + amount)
    }

    /// Sets the user's coins to `amount`.
    pub fn set_money(&mut self, amount: i32)
        ensures
            *final(self) == with_money(*old(self), amount),
    {
        self.money = amount;
    }

    /// The ban that `admin` issues at time `now` on this user in guild `guild_id`, for
    /// `duration` seconds: it starts at `now` and ends `duration` seconds later.
    pub fn ban_at(self, guild_id: i64, admin: User, reason: String, duration: i64, now: i64) -> (ban: NewBan)
        requires
            ban_end_fits(now as int, duration as int),
        ensures
            ban == ban_record(self, guild_id, admin, reason, duration, now),
            ban.ban_time == now,
            ban.end_time == now + duration,
            ban.banned_user_id == self.id,
            ban.admin_user_id == admin.id,
    {
        NewBan {
            admin_user_id: admin.id,
            banned_user_id: self.id,
            guild_id: guild_id,
            reason: reason,
            ban_time: now,
            end_time: now + duration,
        }
    }

    /// The ban that `admin` issues at time `now` on this user in guild `guild_id`, for
    /// `duration` seconds; `None` exactly where its end time would leave the `i64` range.
    pub fn try_ban_at(self, guild_id: i64, admin: User, reason: String, duration: i64, now: i64) -> (ban: Option<NewBan>)
        ensures
            ban == try_ban_record(self, guild_id, admin, reason, duration, now),
            ban is Some <==> i64::MIN <= now + duration <= i64::MAX,
            ban matches Some(b) ==> b.ban_time == now && b.end_time == now + duration,
    {
        match now.checked_add(duration) {
            Some(_) => Some(self.ban_at(guild_id, admin, reason, duration, now)),
            None => None,
        }
    }

    /// The ban that `admin` issues now, by the clock (a reading in `0..=CLOCK_MAX`), on this
    /// user in guild `guild_id`, for `duration` seconds. It is given for every duration of
    /// at most `i64::MAX - CLOCK_MAX` seconds; `None` only where the end time would leave
    /// the `i64` range.
    pub fn ban(self, guild_id: i64, admin: User, reason: String, duration: i64) -> (ban: Option<NewBan>)
        ensures
            exists|now: i64|
                0 <= now <= CLOCK_MAX
                && ban == try_ban_record(self, guild_id, admin, reason, duration, now),
            duration <= i64::MAX - CLOCK_MAX ==> ban is Some,
    {
        let now = now_timestamp();
        self.try_ban_at(guild_id, admin, reason, duration, now)
    }

    /// The warning that `admin` issues at time `now` to this user in guild `guild_id`.
    pub fn warn_at(self, admin: User, guild_id: i64, reason: String, now: i64) -> (warning: NewWarning)
        ensures
            warning == warning_record(self, admin, guild_id, reason, now),
            warning.warning_time == now,
            warning.warned_user_id == self.id,
            warning.admin_user_id == admin.id,
    {
        NewWarning {
            admin_user_id: admin.id,
            warned_user_id: self.id,
            guild_id: guild_id,
            reason: reason,
            warning_time: now,
        }
    }

    /// The warning that `admin` issues now, by the clock, to this user in guild `guild_id`.
    pub fn warn(self, admin: User, guild_id: i64, reason: String) -> (warning: NewWarning)
        ensures
            exists|now: i64| 0 <= now <= CLOCK_MAX && warning == warning_record(self, admin, guild_id, reason, now),
    {
        let now = now_timestamp();
        self.warn_at(admin, guild_id, reason, now)
    }
}

} // verus!
