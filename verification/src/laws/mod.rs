//! What the gateway promises, said of the rows that are stored, of what is asked
//! of Telegram and of the modem, and of the texts that are shown.
pub mod answers;
pub mod calls;
pub mod commands;
pub mod endings;
pub mod forwarding;
pub mod found;
pub mod given;
pub mod history;
pub mod identities;
pub mod machine;
pub mod overview;
pub mod people;
pub mod receiving;
pub mod requests;
pub mod sending;
pub mod settings;
pub mod stored;
pub mod sweeping;
pub mod texts;
pub mod topics;
