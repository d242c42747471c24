//! The forum: what the owner types and taps there, and what is shown.
pub mod cards;
pub mod handlers;
pub mod keyboards;
pub mod parse;
pub mod util;

pub use handlers::handle_sms;
pub use keyboards::{inline_answer_articles, inline_articles};
pub use parse::{
    allow_dm_callback, allowed, bot_commands, format_who, help_text, is_owner_dm,
    parse_ignore_reply, parse_num_callback, parse_open_callback, parse_open_cmd,
    parse_search_query, parse_sms_cmd, parse_status_refresh, topic_open_message,
};
