use nekkobot::models::economy::{InventoryItem, InventoryWrite, Purchase};
use nekkobot::models::user::User;

fn user(money: i32) -> User {
    User { id: 1, discord_id: 42, messages: 0, money, daily_claimed: 0, bot_admin: false }
}

#[test]
fn purchase_affordable() {
    let mut u = user(100);
    assert_eq!(u.purchase(30, 3), Purchase::Bought { cost: 90 });
    assert_eq!(u.money, 10);
}

#[test]
fn purchase_exact_balance() {
    let mut u = user(90);
    assert_eq!(u.purchase(30, 3), Purchase::Bought { cost: 90 });
    assert_eq!(u.money, 0);
}

#[test]
fn purchase_unaffordable() {
    let mut u = user(89);
    assert_eq!(u.purchase(30, 3), Purchase::CannotAfford { cost: 90 });
    assert_eq!(u.money, 89);
}

#[test]
fn purchase_negative_amount_pays_out() {
    let mut u = user(0);
    assert_eq!(u.purchase(10, -2), Purchase::Bought { cost: -20 });
    assert_eq!(u.money, 20);
}

#[test]
fn inventory_add_to_existing_row() {
    let row = InventoryItem { id: 9, user_id: 1, item_id: 4, amount: 2 };
    match InventoryItem::plan_add(Some(row), 1, 4, 5) {
        InventoryWrite::Update(item) => {
            assert_eq!(item.id, 9);
            assert_eq!(item.user_id, 1);
            assert_eq!(item.item_id, 4);
            assert_eq!(item.amount, 7);
        }
        other => panic!("unexpected {:?}", other),
    }
}

#[test]
fn inventory_add_new_row() {
    match InventoryItem::plan_add(None, 1, 4, 5) {
        InventoryWrite::Insert(item) => {
            assert_eq!(item.user_id, 1);
            assert_eq!(item.item_id, 4);
            assert_eq!(item.amount, 5);
        }
        other => panic!("unexpected {:?}", other),
    }
}

#[test]
fn inventory_adds_accumulate() {
    let row = InventoryItem { id: 3, user_id: 1, item_id: 4, amount: 1 };
    let once = match InventoryItem::plan_add(Some(row), 1, 4, 2) {
        InventoryWrite::Update(item) => item,
        other => panic!("unexpected {:?}", other),
    };
    let twice = match InventoryItem::plan_add(Some(once), 1, 4, 3) {
        InventoryWrite::Update(item) => item,
        other => panic!("unexpected {:?}", other),
    };
    assert_eq!(twice.amount, 6);
}
