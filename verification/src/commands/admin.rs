//! Replies of the moderation commands.

use vstd::prelude::*;
use crate::text::{decimal, push_decimal};

verus! {

/// The reply to a successful ban: `User banned successfully~, ban_id: {ban_id}`.
pub fn banned_text(ban_id: i32) -> (text: String)
    ensures
        text@ == "User banned successfully~, ban_id: "@ + decimal(ban_id as int),
{
    let mut text = "User banned successfully~, ban_id: ".to_string();
    push_decimal(&mut text, ban_id as i64);
    text
}

} // verus!
