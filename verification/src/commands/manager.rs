//! Replies of the owner's maintenance commands.

use vstd::prelude::*;
use crate::text::{decimal, push_decimal};

verus! {

/// The reply to `db`: `Connections: {connections} Idle: {idle}`.
pub fn pool_state_text(connections: u32, idle: u32) -> (text: String)
    ensures
        text@ == "Connections: "@ + decimal(connections as int) + " Idle: "@ + decimal(idle as int),
{
    let mut text = "Connections: ".to_string();
    push_decimal(&mut text, connections as i64);
    text.append(" Idle: ");
    push_decimal(&mut text, idle as i64);
    text
}

} // verus!
