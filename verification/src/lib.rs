//! The logic of a Discord economy and moderation bot: the daily reward, purchases and
//! inventory, bans and warnings, gallery tag listings, and the text of the bot's replies.
//! Everything that talks to Discord, the database or the network lives outside this crate.

pub mod text;
pub mod utils;
pub mod clock;
pub mod models;
pub mod commands;
