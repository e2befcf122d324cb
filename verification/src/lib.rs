//! A gemini browser's logic: status lines and gemtext, URLs, screen
//! geometry and scrolling cursors, and the state of the interface.
pub mod scr;
pub mod screen;
pub mod bnd;
pub mod common;
pub mod strings;
pub mod util;
pub mod gemstatus;
pub mod weburl;
pub mod status;
pub mod gemini;
pub mod event;
pub mod msg;
pub mod bar;
pub mod content;
pub mod table;
pub mod config;
pub mod widget;
pub mod ui;
pub mod constants;
pub mod view;
pub mod tab;
pub mod tabs;
pub mod dialog;
pub mod model;
pub mod display;
