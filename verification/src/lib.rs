//! Verified core of a WhatsApp desktop client: the identifier helpers, the
//! message and chat types exchanged with the service layer, and the state
//! managers that the user interface reads and updates.

pub mod text;
pub mod app;
pub mod keyed;
pub mod clock;
pub mod rpc;
pub mod model;
pub mod whatsapp;
pub mod controller;
pub mod app_core;
pub mod ui;
pub mod view;
