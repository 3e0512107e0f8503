//! Translation key names for the browser's user-visible strings.

use vstd::prelude::*;

verus! {

// ── Window ───────────────────────────────────────────────────────────────────

pub const TITLE: &'static str = "browser-title";
pub const ADDRESS_PLACEHOLDER: &'static str = "browser-address-placeholder";
pub const NEW_TAB: &'static str = "browser-new-tab";

// ── Navigation ───────────────────────────────────────────────────────────────

pub const BTN_BACK: &'static str = "browser-btn-back";
pub const BTN_FORWARD: &'static str = "browser-btn-forward";
pub const BTN_REFRESH: &'static str = "browser-btn-refresh";
pub const BTN_HOME: &'static str = "browser-btn-home";

// ── Tabs ─────────────────────────────────────────────────────────────────────

pub const TAB_HISTORY: &'static str = "browser-tab-history";
pub const TAB_BOOKMARKS: &'static str = "browser-tab-bookmarks";
pub const TAB_DOWNLOADS: &'static str = "browser-tab-downloads";

// ── Bookmarks ────────────────────────────────────────────────────────────────

pub const BOOKMARKS_TITLE: &'static str = "browser-bookmarks-title";
pub const BOOKMARKS_ADDED: &'static str = "browser-bookmarks-added";
pub const BOOKMARKS_EMPTY: &'static str = "browser-bookmarks-empty";

// ── History ──────────────────────────────────────────────────────────────────

pub const HISTORY_TITLE: &'static str = "browser-history-title";
pub const HISTORY_EMPTY: &'static str = "browser-history-empty";
pub const HISTORY_CLEAR: &'static str = "browser-history-clear";

// ── Errors ───────────────────────────────────────────────────────────────────

pub const ERROR_NO_GUI: &'static str = "browser-error-no-gui";

} // verus!
