//! `fs-browser` — the browser of the FreeSynergy desktop: tabs, navigation
//! history, bookmarks, search engines and address-bar handling, with their
//! behaviour stated as Verus contracts and proved.
//!
//! - [`model::BrowserModel`] — observable state (URL, title, loading, history)
//! - [`controller::BrowserController`] — navigation and bookmark logic over an
//!   injected [`bookmark::BookmarkStore`]
//! - [`view::BrowserView`] — the browser chrome computed from a model
//! - [`app::BrowserApp`] — the desktop application as a state machine whose
//!   messages yield commands for the web engine
//! - [`search_engine`] / [`config`] — search engines and configuration

pub mod text;
pub mod stamp;

pub mod navigation;
pub mod bookmark;
pub mod model;
pub mod controller;
pub mod view;
pub mod keys;

pub mod search_engine;
pub mod config;

pub mod app_model;
pub mod bookmarks;
pub mod history;
pub mod app;
pub mod panels;

pub mod cli;
pub mod rest;
