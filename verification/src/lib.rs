//! What a Telegram bot decides that fetches RSS and Atom feeds and posts what is new on public
//! channels.

pub mod bot;
pub mod bot_laws;
pub mod cache;
pub mod check;
pub mod check_laws;
pub mod command;
pub mod command_laws;
pub mod feed;
pub mod feed_laws;
pub mod listing;
pub mod moment;
pub mod rules;
pub mod sql;
pub mod sql_laws;
pub mod stage_laws;
pub mod text;
pub mod text_laws;
pub mod tg_bot;
pub mod tg_laws;
pub mod token;
pub mod update;
pub mod update_laws;
