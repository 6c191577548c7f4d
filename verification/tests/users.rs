use nekkobot::models::admin::{NewBan, NewWarning};
use nekkobot::models::user::{User, DAILY_COOLDOWN, DAILY_REWARD};

fn user(id: i32, money: i32, daily_claimed: i64) -> User {
    User { id, discord_id: 100_000 + id as i64, messages: 3, money, daily_claimed, bot_admin: false }
}

#[test]
fn daily_claim_when_ready_grants_reward() {
    let mut u = user(1, 50, 1_000);
    let now = 1_000 + DAILY_COOLDOWN;
    assert_eq!(u.claim_daily_at(now), Ok(true));
    assert_eq!(u.money, 50 + DAILY_REWARD);
    assert_eq!(u.money, 70);
    assert_eq!(u.daily_claimed, now);
    assert_eq!(u.id, 1);
    assert_eq!(u.messages, 3);
}

#[test]
fn daily_claim_too_early_reports_wait() {
    let mut u = user(2, 50, 1_000_000);
    // 9420 seconds are left.
    let now = 1_000_000 + DAILY_COOLDOWN - 9420;
    assert_eq!(u.claim_daily_at(now), Err("2h 37m".to_string()));
    assert_eq!(u.money, 50);
    assert_eq!(u.daily_claimed, 1_000_000);
}

#[test]
fn daily_claim_right_after_claim_waits_a_day() {
    let mut u = user(3, 0, 0);
    assert_eq!(u.claim_daily_at(500_000), Ok(true));
    assert_eq!(u.claim_daily_at(500_000), Err("1day".to_string()));
    assert_eq!(u.claim_daily_at(500_000 + DAILY_COOLDOWN - 1), Err("1s".to_string()));
    assert_eq!(u.claim_daily_at(500_000 + DAILY_COOLDOWN), Ok(true));
    assert_eq!(u.money, 40);
}

#[test]
fn daily_claim_by_clock() {
    let mut u = user(4, 5, 0);
    assert_eq!(u.claim_daily(), Some(Ok(true)));
    assert_eq!(u.money, 25);
    assert!(u.daily_claimed > 1_600_000_000);
    match u.claim_daily() {
        Some(Err(wait)) => assert!(wait.ends_with('s') || wait.ends_with('m') || wait.ends_with('h') || wait.ends_with("day")),
        other => panic!("unexpected {:?}", other),
    }
    assert_eq!(u.money, 25);
}

#[test]
fn daily_claim_by_clock_refuses_overflowing_balance() {
    let mut u = user(5, i32::MAX - 3, 0);
    assert_eq!(u.claim_daily(), None);
    assert_eq!(u.money, i32::MAX - 3);
    assert_eq!(u.daily_claimed, 0);
}

#[test]
fn money_changes() {
    let mut u = user(6, 100, 0);
    u.add_money(25);
    assert_eq!(u.money, 125);
    u.add_money(-25);
    assert_eq!(u.money, 100);
    u.set_money(-3);
    assert_eq!(u.money, -3);
    assert_eq!(u.id, 6);
}

fn same_ban(a: &NewBan, b: &NewBan) -> bool {
    a.banned_user_id == b.banned_user_id
        && a.admin_user_id == b.admin_user_id
        && a.guild_id == b.guild_id
        && a.reason == b.reason
        && a.ban_time == b.ban_time
        && a.end_time == b.end_time
}

#[test]
fn ban_record_at_time() {
    let target = user(7, 0, 0);
    let admin = user(8, 0, 0);
    let b = target.ban_at(555, admin, "spam".to_string(), 3600, 1_700_000_000);
    let expected = NewBan {
        banned_user_id: 7,
        admin_user_id: 8,
        guild_id: 555,
        reason: "spam".to_string(),
        ban_time: 1_700_000_000,
        end_time: 1_700_003_600,
    };
    assert!(same_ban(&b, &expected));
}

#[test]
fn ban_by_clock_and_overflow() {
    let b = user(7, 0, 0).ban(555, user(8, 0, 0), "spam".to_string(), 0).unwrap();
    assert_eq!(b.end_time, b.ban_time);
    assert!(b.ban_time > 1_600_000_000);
    assert!(user(7, 0, 0).ban(555, user(8, 0, 0), "forever".to_string(), i64::MAX).is_none());
}

#[test]
fn warnings() {
    let w: NewWarning = user(9, 0, 0).warn_at(user(10, 0, 0), 77, "rude".to_string(), 42);
    assert_eq!(w.warned_user_id, 9);
    assert_eq!(w.admin_user_id, 10);
    assert_eq!(w.guild_id, 77);
    assert_eq!(w.reason, "rude");
    assert_eq!(w.warning_time, 42);
    let w = user(9, 0, 0).warn(user(10, 0, 0), 77, "rude".to_string());
    assert!(w.warning_time > 1_600_000_000);
    assert_eq!(w.warned_user_id, 9);
}

#[test]
fn daily_claim_wait_texts_by_humantime() {
    // Waits are at most a day, but the text covers every span the clock allows.
    let mut u = user(11, 0, 0);
    assert_eq!(u.claim_daily_at(3), Err("23h 59m 57s".to_string()));
    let mut far = user(12, 0, 2 * 31_557_600 + 2_630_016 + 86400 + 3);
    assert_eq!(far.claim_daily_at(DAILY_COOLDOWN), Err("2years 1month 1day 3s".to_string()));
    let mut year = user(13, 0, 31_557_600);
    assert_eq!(year.claim_daily_at(DAILY_COOLDOWN), Err("1year".to_string()));
}

#[test]
fn try_daily_claim_at_refuses_overflow() {
    let mut rich = user(14, i32::MAX - 19, 0);
    assert_eq!(rich.try_claim_daily_at(DAILY_COOLDOWN), None);
    assert_eq!(rich.money, i32::MAX - 19);
    let mut exact = user(15, i32::MAX - 20, 0);
    assert_eq!(exact.try_claim_daily_at(DAILY_COOLDOWN), Some(Ok(true)));
    assert_eq!(exact.money, i32::MAX);
    let mut late = user(16, 0, i64::MAX - DAILY_COOLDOWN + 1);
    assert_eq!(late.try_claim_daily_at(0), None);
    assert_eq!(late.claim_daily(), None);
    let mut early = user(17, 0, 1_000);
    assert_eq!(early.try_claim_daily_at(1_000 + 60), Some(Err("23h 59m".to_string())));
}

#[test]
fn try_ban_at_refuses_overflow() {
    assert!(user(18, 0, 0).try_ban_at(1, user(19, 0, 0), "r".to_string(), 10, i64::MAX - 10).is_some());
    assert!(user(18, 0, 0).try_ban_at(1, user(19, 0, 0), "r".to_string(), 11, i64::MAX - 10).is_none());
    let b = user(18, 0, 0).try_ban_at(1, user(19, 0, 0), "r".to_string(), -5, 100).unwrap();
    assert_eq!(b.ban_time, 100);
    assert_eq!(b.end_time, 95);
}
