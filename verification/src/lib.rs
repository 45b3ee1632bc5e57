//! Verified decision logic of the SyncPlus desktop synchronisation tool.
pub mod calls;
pub mod chrome;
pub mod conflict_review;
pub mod desktop;
pub mod diagnostics;
pub mod failure;
pub mod folder_dialog;
pub mod fonts;
pub mod forms;
pub mod help;
pub mod icon;
pub mod journal;
pub mod labels;
pub mod manual_run;
pub mod mirror;
pub mod model;
pub mod notification;
pub mod profile;
pub mod resolution;
pub mod resume;
pub mod review;
pub mod scheduler;
pub mod scope_lock;
pub mod ssh;
pub mod status;
pub mod store;
pub mod text;
pub mod theme;
pub mod workflow;
