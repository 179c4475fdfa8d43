//! Moderation rules of a Telegram group bot: who may grant and revoke admin
//! rights, who may ban whom and how often, and what the bot answers.
//!
//! The library decides; the program around it talks to Telegram and to the
//! database. Each command is handled by a [`flow::Flow`]: the caller performs
//! the [`flow::Action`] it is given and hands back the [`flow::Event`] that came
//! of it, until the flow finishes.

pub mod text;
pub mod config;
pub mod clock;
pub mod model;
pub mod flow;
pub mod laws;
