//! Verified core of the football betting platform: the rules that decide
//! what the storage and web layers do, stated over plain values.

pub mod text;
pub mod transaction_result;
pub mod json;
pub mod error;
pub mod bet;
pub mod game_result;
pub mod common_api_structs;
pub mod game;
pub mod bookmaker;
pub mod odd;
pub mod assets;
pub mod search;
pub mod club;
pub mod league;
pub mod country;
pub mod sql;
pub mod season;
pub mod scoreboard;
pub mod translation;
pub mod translation_manager;
pub mod ddos;
pub mod token;
pub mod api_token;
pub mod user;
pub mod web;
pub mod cache_manager;
