//! Verified core of the rmst-tools desktop helper: the decisions and text
//! handling behind its window, history, command, port and update features.
#![allow(non_snake_case, non_upper_case_globals)]

pub mod app_info;
pub mod command;
pub mod history;
pub mod icon;
pub mod port;
pub mod proxy;
pub mod setting;
pub mod shell;
pub mod text;
pub mod update;
pub mod updater;
pub mod window;
