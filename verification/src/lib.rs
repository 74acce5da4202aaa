//! Telepass: a self-hosted password manager driven through a Telegram bot.

pub mod rated;
pub mod last_seen;
pub mod text;
pub mod command;
pub mod markdown;
pub mod message;
pub mod button;
pub mod crypto;
pub mod data_model;
pub mod grpc;
pub mod keyboard;
pub mod state;
pub mod dialogue;
pub mod sorted;
pub mod storage;
pub mod cache;
pub mod authorized;
pub mod unauthorized;
pub mod web;
pub mod db;
pub mod sign_in;
pub mod show;
pub mod submit;
pub mod service;
