//! Decision logic of a desktop wrapper around the Slack web client.
#![allow(unused_imports)]

pub mod paths;
pub mod text;
pub mod js_literal;
pub mod web_url;
pub mod os_command;
pub mod scripts;
pub mod downloads;
pub mod notification;
pub mod window_policy;
pub mod menu;
