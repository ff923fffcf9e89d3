//! Verified core of the Bloom meditation-tracking bot: configuration values,
//! pagination, UTC-offset choices, markdown sanitising, streak computation,
//! statistics formatting, the session-import pipeline, and the decisions and
//! replies of the bot's commands (help menu, glossary, quotes, challenges,
//! courses, moderation, events, moving messages).
#![allow(unused_imports)]

pub mod text;
pub mod config;
pub mod roles;
pub mod streak;
pub mod time;
pub mod pagination;
pub mod tracking;
pub mod tracking_profile;
pub mod datetime;
pub mod parse;
pub mod ids;
pub mod meditation;
pub mod import;
pub mod stats;
pub mod glossary;
pub mod quote;
pub mod rows;
pub mod common;
pub mod records;
pub mod erase;
pub mod winner;
pub mod community_sit;
pub mod coffee;
pub mod help;
pub mod moving;
pub mod challenge;
pub mod extract;
pub mod reports;
pub mod term_names;
pub mod utilities;
pub mod charts;
pub mod dialog;
