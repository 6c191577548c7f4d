//! Replies of the economy commands, and the clean-up of their arguments.

use vstd::prelude::*;
use crate::commands::{Embed, embed_is, embed_one};
use crate::text::{decimal, i64_text, push_decimal};

verus! {

broadcast use vstd::string::group_string_axioms;

/// The character is not a double quote.
pub open spec fn not_quote(c: char) -> bool {
    c != '"'
}

/// `s` without its double quotes.
pub open spec fn without_quotes(s: Seq<char>) -> Seq<char> {
    s.filter(|c: char| not_quote(c))
}

/// Removing the double quotes leaves none, and removing them again changes nothing.
pub proof fn lemma_without_quotes_idempotent(s: Seq<char>)
    ensures
        !without_quotes(s).contains('"'),
        without_quotes(without_quotes(s)) == without_quotes(s),
    decreases s.len(),
{
    reveal(Seq::filter);
    if s.len() > 0 {
        lemma_without_quotes_idempotent(s.drop_last());
        let w = without_quotes(s.drop_last());
        assert(without_quotes(s) == if not_quote(s.last()) { w.push(s.last()) } else { w });
        if not_quote(s.last()) {
            let v = w.push(s.last());
            assert(v.drop_last() =~= w);
            assert(v.last() == s.last());
            assert forall|i: int| 0 <= i < v.len() implies v[i] != '"' by {
                if i < w.len() {
                    assert(v[i] == w[i]);
                    assert(!w.contains('"'));
                }
            }
            assert(without_quotes(v) == without_quotes(w).push(s.last()));
        }
    }
}

/// The number of double quotes in `s`.
pub open spec fn quote_count(s: Seq<char>) -> nat
    decreases s.len(),
{
    if s.len() == 0 {
        0
    } else {
        quote_count(s.drop_last()) + if s.last() == '"' {
            1nat
        } else {
            0nat
        }
    }
}

/// Removing the double quotes keeps every other character, in order: appending a
/// character to `s` appends it to the result unless it is a double quote, which is
/// dropped; a text without double quotes comes back unchanged; and the result is shorter
/// than `s` by exactly the number of double quotes in `s`.
pub proof fn lemma_without_quotes_keeps_the_rest(s: Seq<char>, c: char)
    ensures
        without_quotes(s.push(c)) == (if c == '"' {
            without_quotes(s)
        } else {
            without_quotes(s).push(c)
        }),
        !s.contains('"') ==> without_quotes(s) == s,
        without_quotes(s).len() + quote_count(s) == s.len(),
    decreases s.len(),
{
    reveal(Seq::filter);
    assert(s.push(c).drop_last() =~= s);
    if s.len() > 0 {
        lemma_without_quotes_keeps_the_rest(s.drop_last(), s.last());
        if !s.contains('"') {
            assert(!s.drop_last().contains('"')) by {
                if s.drop_last().contains('"') {
                    let i = choose|i: int| 0 <= i < s.drop_last().len() && s.drop_last()[i] == '"';
                    assert(s[i] == '"');
                }
            }
            assert(s.last() != '"') by {
                assert(s[s.len() - 1] == s.last());
            }
            assert(s.drop_last().push(s.last()) =~= s);
        }
    } else {
        assert(s =~= Seq::<char>::empty());
    }
}

/// Removes the double quotes from an argument, as `arg.replace("\"", "")` does.
pub fn strip_quotes(arg: &str) -> (clean: String)
    ensures
        clean@ == without_quotes(arg@),
        !arg@.contains('"') ==> clean@ == arg@,
        clean@.len() + quote_count(arg@) == arg@.len(),
{
    let mut clean = String::new();
    let n = arg.unicode_len();
    assert(arg@.take(0) =~= Seq::<char>::empty());
    proof {
        reveal(Seq::filter);
    }
    for i in 0..n
        invariant
            n == arg@.len(),
            clean@ == without_quotes(arg@.take(i as int)),
    {
        let c = arg.get_char(i);
        let ghost prefix = arg@.take(i + 1);
        assert(prefix.drop_last() =~= arg@.take(i as int));
        assert(prefix.last() == c);
        proof {
            reveal(Seq::filter);
        }
        assert(without_quotes(prefix) == if not_quote(c) {
            without_quotes(arg@.take(i as int)).push(c)
        } else {
            without_quotes(arg@.take(i as int))
        });
        if c != '"' {
            clean.push(c);
        }
    }
    assert(arg@.take(n as int) =~= arg@);
    proof {
        lemma_without_quotes_keeps_the_rest(arg@, 'a');
    }
    clean
}

/// The embed that answers `daily`, from the answer of the claim and the balance after it:
/// the new balance when the coins were granted, else the wait before the next claim.
pub fn daily_embed(answer: Result<bool, String>, money: i32) -> (embed: Embed)
    ensures
        answer is Ok ==> embed_is(
            embed,
            "Daily coins claimed!"@,
            seq![("New Balance"@, decimal(money as int))],
        ),
        answer matches Err(wait) ==> embed_is(
            embed,
            "Daily coins already claimed!"@,
            seq![("You can claim your daily coins again in"@, wait@)],
        ),
{
    match answer {
        Ok(_) => embed_one(
            "Daily coins claimed!".to_string(),
            "New Balance".to_string(),
            i64_text(money as i64),
        ),
        Err(wait) => embed_one(
            "Daily coins already claimed!".to_string(),
            "You can claim your daily coins again in".to_string(),
            wait,
        ),
    }
}

/// The reply to `balance`: `You currently have {money} nekkocoins`.
pub fn balance_text(money: i32) -> (text: String)
    ensures
        text@ == "You currently have "@ + decimal(money as int) + " nekkocoins"@,
{
    let mut text = "You currently have ".to_string();
    push_decimal(&mut text, money as i64);
    text.append(" nekkocoins");
    text
}

/// The reply to a purchase that went through:
/// `Succesfully purchased {name} x{amount} for {cost}$ - You now have {owned}`.
pub fn bought_text(name: &str, amount: i32, cost: i32, owned: i32) -> (text: String)
    ensures
        text@ == "Succesfully purchased "@ + name@ + " x"@ + decimal(amount as int) + " for "@
            + decimal(cost as int) + "$ - You now have "@ + decimal(owned as int),
{
    let mut text = "Succesfully purchased ".to_string();
    text.append(name);
    text.append(" x");
    push_decimal(&mut text, amount as i64);
    text.append(" for ");
    push_decimal(&mut text, cost as i64);
    text.append("$ - You now have ");
    push_decimal(&mut text, owned as i64);
    text
}

/// The reply to a purchase the user cannot afford:
/// `You don't have enough money to purchase {name} x{amount} for {cost}$`.
pub fn cannot_afford_text(name: &str, amount: i32, cost: i32) -> (text: String)
    ensures
        text@ == "You don't have enough money to purchase "@ + name@ + " x"@ + decimal(
            amount as int,
        ) + " for "@ + decimal(cost as int) + "$"@,
{
    let mut text = "You don't have enough money to purchase ".to_string();
    text.append(name);
    text.append(" x");
    push_decimal(&mut text, amount as i64);
    text.append(" for ");
    push_decimal(&mut text, cost as i64);
    text.append("$");
    text
}

/// The reply to `new_item`: `Item {name} created with id {id}.`.
pub fn item_created_text(name: &str, id: i32) -> (text: String)
    ensures
        text@ == "Item "@ + name@ + " created with id "@ + decimal(id as int) + "."@,
{
    let mut text = "Item ".to_string();
    text.append(name);
    text.append(" created with id ");
    push_decimal(&mut text, id as i64);
    text.append(".");
    text
}

/// The reply to `set_money`: `User <@{discord_id}> ({id}) now has {money}$`.
pub fn money_set_text(discord_id: i64, id: i32, money: i32) -> (text: String)
    ensures
        text@ == "User <@"@ + decimal(discord_id as int) + "> ("@ + decimal(id as int)
            + ") now has "@ + decimal(money as int) + "$"@,
{
    let mut text = "User <@".to_string();
    push_decimal(&mut text, discord_id);
    text.append("> (");
    push_decimal(&mut text, id as i64);
    text.append(") now has ");
    push_decimal(&mut text, money as i64);
    text.append("$");
    text
}

} // verus!
