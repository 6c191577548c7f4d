//! The shop and the inventories: items for sale, what users own, and what a purchase does.

use vstd::prelude::*;
use crate::models::user::{User, with_money};

verus! {

/// A row of the `shop` table.
#[derive(Debug)]
pub struct PurchasableItem {
    pub id: i32,
    pub name: String,
    pub description: String,
    pub price: i32,
    pub purchasable: bool,
}

/// An item to insert into the `shop` table.
#[derive(Debug)]
pub struct NewPurchasableItem {
    pub name: String,
    pub description: String,
    pub price: i32,
}

/// A row of the `inventory` table: `amount` of item `item_id` owned by user `user_id`.
#[derive(Debug)]
pub struct InventoryItem {
    pub id: i32,
    pub user_id: i32,
    pub item_id: i32,
    pub amount: i32,
}

/// An inventory row to insert into the `inventory` table.
#[derive(Debug)]
pub struct NewInventoryItem {
    pub user_id: i32,
    pub item_id: i32,
    pub amount: i32,
}

/// How adding items to an inventory is written to the `inventory` table.
#[derive(Debug)]
pub enum InventoryWrite {
    /// The row `item.id` already holds the item: its amount becomes `item.amount`, and
    /// `item` is the row as it then stands.
    Update(InventoryItem),
    /// No row holds the item yet: this one is inserted.
    Insert(NewInventoryItem),
}

/// The outcome of an attempt to buy, with the total price `cost`.
#[derive(Debug, PartialEq, Eq, Structural)]
pub enum Purchase {
    /// The user had at least `cost` coins, and paid them.
    Bought { cost: i32 },
    /// The user had fewer than `cost` coins; nothing changed.
    CannotAfford { cost: i32 },
}

/// The inventory row with `amount` more of its item; nothing else changes.
pub open spec fn with_more(item: InventoryItem, amount: int) -> InventoryItem {
    InventoryItem { amount: (item.amount + amount) as i32, ..item }
}

/// What adding `amount` of item `item_id` to the inventory of user `user_id` writes, where
/// `existing` is the row that already holds that item for that user, if there is one.
pub open spec fn inventory_write(
    existing: Option<InventoryItem>,
    user_id: i32,
    item_id: i32,
    amount: i32,
) -> InventoryWrite {
    match existing {
        Some(item) => InventoryWrite::Update(with_more(item, amount as int)),
        None => InventoryWrite::Insert(
            NewInventoryItem { user_id: user_id, item_id: item_id, amount: amount },
        ),
    }
}

/// Adding `a` and then `b` of an item to a row is adding `a + b` at once.
pub proof fn lemma_inventory_adds_accumulate(item: InventoryItem, a: int, b: int)
    requires
        i32::MIN <= item.amount + a <= i32::MAX,
        i32::MIN <= item.amount + a + b <= i32::MAX,
    ensures
        with_more(with_more(item, a), b) == with_more(item, a + b),
{
}

/// The inventory table is well formed: no two rows hold the same item for the same user,
/// and no two rows share an id.
pub open spec fn inventory_well_formed(rows: Seq<InventoryItem>) -> bool {
    forall|i: int, j: int|
        0 <= i < rows.len() && 0 <= j < rows.len() && i != j ==> {
            &&& !(rows[i].user_id == rows[j].user_id && rows[i].item_id == rows[j].item_id)
            &&& rows[i].id != rows[j].id
        }
}

/// `existing` is what looking up item `item_id` of user `user_id` in `rows` finds: the row
/// that holds it, or `None` where no row does.
pub open spec fn inventory_lookup(
    rows: Seq<InventoryItem>,
    existing: Option<InventoryItem>,
    user_id: i32,
    item_id: i32,
) -> bool {
    match existing {
        Some(row) => rows.contains(row) && row.user_id == user_id && row.item_id == item_id,
        None => forall|k: int|
            0 <= k < rows.len() ==> !(#[trigger] rows[k].user_id == user_id && rows[k].item_id
                == item_id),
    }
}

/// The table after `write`: an update replaces the row with the same id, an insert adds a
/// row whose id is `fresh_id`.
pub open spec fn apply_inventory_write(
    rows: Seq<InventoryItem>,
    write: InventoryWrite,
    fresh_id: i32,
) -> Seq<InventoryItem> {
    match write {
        InventoryWrite::Update(item) => rows.map_values(
            |r: InventoryItem|
                if r.id == item.id {
                    item
                } else {
                    r
                },
        ),
        InventoryWrite::Insert(row) => rows.push(
            InventoryItem {
                id: fresh_id,
                user_id: row.user_id,
                item_id: row.item_id,
                amount: row.amount,
            },
        ),
    }
}

/// Adding items keeps one row per user and item: applied to a well-formed table, with the
/// lookup's result and a fresh id for a new row, the write keeps the table well formed;
/// afterwards one row holds the item for the user, with the old amount plus `amount` (or
/// `amount` where there was none), and every other row is as it was.
pub proof fn lemma_inventory_add_keeps_one_row(
    rows: Seq<InventoryItem>,
    existing: Option<InventoryItem>,
    user_id: i32,
    item_id: i32,
    amount: i32,
    fresh_id: i32,
)
    requires
        inventory_well_formed(rows),
        inventory_lookup(rows, existing, user_id, item_id),
        forall|k: int| 0 <= k < rows.len() ==> (#[trigger] rows[k]).id != fresh_id,
        existing matches Some(row) ==> i32::MIN <= row.amount + amount <= i32::MAX,
    ensures
        ({
            let after = apply_inventory_write(
                rows,
                inventory_write(existing, user_id, item_id, amount),
                fresh_id,
            );
            let owned = match existing {
                Some(row) => row.amount + amount,
                None => amount as int,
            };
            &&& inventory_well_formed(after)
            &&& exists|k: int|
                0 <= k < after.len() && (#[trigger] after[k]).user_id == user_id
                    && after[k].item_id == item_id && after[k].amount == owned
            &&& forall|k: int|
                0 <= k < rows.len() && !(rows[k].user_id == user_id && rows[k].item_id == item_id)
                    ==> #[trigger] after[k] == rows[k]
        }),
{
    let write = inventory_write(existing, user_id, item_id, amount);
    let after = apply_inventory_write(rows, write, fresh_id);
    match existing {
        Some(row) => {
            let k0 = choose|k: int| 0 <= k < rows.len() && rows[k] == row;
            let updated = with_more(row, amount as int);
            assert(after.len() == rows.len());
            assert forall|k: int| 0 <= k < rows.len() implies #[trigger] after[k] == (if k == k0 {
                updated
            } else {
                rows[k]
            }) by {
                if k != k0 {
                    assert(rows[k].id != rows[k0].id);
                }
            }
            assert(after[k0].amount == row.amount + amount);
        },
        None => {
            assert(after.len() == rows.len() + 1);
            assert forall|k: int| 0 <= k < rows.len() implies #[trigger] after[k] == rows[k] by {}
            assert(after[rows.len() as int].amount == amount);
        },
    }
}

impl InventoryItem {
    /// Decides how `amount` of item `item_id` is added to the inventory of user `user_id`,
    /// given the row that already holds it, if any: that row's amount grows by `amount`,
    /// or a new row with `amount` is inserted.
    pub fn plan_add(existing: Option<InventoryItem>, user_id: i32, item_id: i32, amount: i32) -> (write: InventoryWrite)
        requires
            existing matches Some(item) ==> i32::MIN <= item.amount + amount <= i32::MAX,
        ensures
            write == inventory_write(existing, user_id, item_id, amount),
    {
        match existing {
            Some(mut item) => {
                item.amount = item.amount + amount;
                InventoryWrite::Update(item)
            },
            None => InventoryWrite::Insert(
                NewInventoryItem { user_id: user_id, item_id: item_id, amount: amount },
            ),
        }
    }
}

/// The prices of a purchase stay within `i32`: the total, its negation, and the balance
/// left after paying it.
pub open spec fn purchase_fits(money: int, price: int, amount: int) -> bool {
    &&& i32::MIN < price * amount <= i32::MAX
    &&& money >= price * amount ==> money - price * amount <= i32::MAX
}

/// What a purchase of `amount` items priced `price` does: with `cost = price * amount`,
/// where the user has at least `cost` coins they are paid and the outcome is `Bought`;
/// otherwise nothing changes and the outcome is `CannotAfford`.
pub open spec fn purchase_outcome(
    before: User,
    after: User,
    outcome: Purchase,
    price: i32,
    amount: i32,
) -> bool {
    let cost = price * amount;
    if before.money >= cost {
        &&& outcome == (Purchase::Bought { cost: cost as i32 })
        &&& after == with_money(before, (before.money - cost) as i32)
    } else {
        &&& outcome == (Purchase::CannotAfford { cost: cost as i32 })
        &&& after == before
    }
}

/// A purchase never leaves the buyer with a negative balance, whatever the signs of the
/// price and the amount: where it goes through, the balance is the old one minus the total,
/// and at least 0.
pub proof fn lemma_purchase_never_negative(
    before: User,
    after: User,
    outcome: Purchase,
    price: i32,
    amount: i32,
)
    requires
        purchase_fits(before.money as int, price as int, amount as int),
        purchase_outcome(before, after, outcome, price, amount),
        outcome is Bought,
    ensures
        after.money == before.money - price * amount,
        after.money >= 0,
{
}

/// A purchase goes through exactly when the balance covers the total `price * amount`:
/// then the outcome reports that total and exactly that many coins are taken, with nothing
/// else changed; where the balance falls short the outcome reports the same total and the
/// user is left as before.
pub proof fn lemma_purchase_pays_exactly_when_affordable(
    before: User,
    after: User,
    outcome: Purchase,
    price: i32,
    amount: i32,
)
    requires
        purchase_fits(before.money as int, price as int, amount as int),
        purchase_outcome(before, after, outcome, price, amount),
    ensures
        outcome is Bought <==> before.money >= price * amount,
        outcome matches Purchase::Bought { cost } ==> cost == price * amount,
        outcome matches Purchase::CannotAfford { cost } ==> cost == price * amount,
        before.money >= price * amount ==> {
            &&& after.money == before.money - price * amount
            &&& after.id == before.id
            &&& after.discord_id == before.discord_id
            &&& after.messages == before.messages
            &&& after.daily_claimed == before.daily_claimed
            &&& after.bot_admin == before.bot_admin
        },
        before.money < price * amount ==> after == before,
{
}

/// More coins never turn a purchase down: where a user can buy some items, a user with at
/// least as many coins can buy the same items too.
pub proof fn lemma_purchase_monotone_in_balance(
    poorer: User,
    poorer_after: User,
    poorer_outcome: Purchase,
    richer: User,
    richer_after: User,
    richer_outcome: Purchase,
    price: i32,
    amount: i32,
)
    requires
        purchase_fits(poorer.money as int, price as int, amount as int),
        purchase_fits(richer.money as int, price as int, amount as int),
        purchase_outcome(poorer, poorer_after, poorer_outcome, price, amount),
        purchase_outcome(richer, richer_after, richer_outcome, price, amount),
        poorer.money <= richer.money,
        poorer_outcome is Bought,
    ensures
        richer_outcome is Bought,
        richer.money - richer_after.money == poorer.money - poorer_after.money,
{
}

impl User {
    /// Buys `amount` items priced `price` each: the total is `price * amount`; if the user
    /// has at least that many coins they are paid, else nothing changes.
    pub fn purchase(&mut self, price: i32, amount: i32) -> (outcome: Purchase)
        requires
            purchase_fits(old(self).money as int, price as int, amount as int),
        ensures
            purchase_outcome(*old(self), *final(self), outcome, price, amount),
            outcome is Bought <==> old(self).money >= price * amount,
            old(self).money >= price * amount ==> final(self).money == old(self).money - price * amount,
            old(self).money < price * amount ==> *final(self) == *old(self),
    {
        let cost = price * amount;
        if self.money >= cost {
            self.add_money(-cost);
            Purchase::Bought { cost }
        } else {
            Purchase::CannotAfford { cost }
        }
    }
}

} // verus!
