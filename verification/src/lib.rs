//! Shared graph model, schema catalog, validation, wire codec and frontend helpers of the
//! animation graph editor, with their behaviour stated and proved.

pub mod text;
pub mod value;
pub mod json;
pub mod schema;
pub mod document;
pub mod inference;
pub mod catalog;
pub mod validation;
pub mod events;
pub mod exchange;
pub mod protocol;
pub mod navigation;
pub mod menu;
pub mod preview;
pub mod uploads;
pub mod subscriptions;
pub mod editor;
pub mod history;
pub mod keyed;
pub mod session;
pub mod graph_actions;
pub mod import_export;
pub mod clipboard;
pub mod messages;
pub mod layouts;
pub mod legacy_catalog;
