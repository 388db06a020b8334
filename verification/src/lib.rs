//! Quotail core: the verified logic of a terminal market dashboard — timeframes and
//! fetch sizing, the editable config and its settings screen, watchlist filtering,
//! chart windowing and bucketing, screen geometry, the navigation rules of the
//! event loop, and the decisions of the data store, the Yahoo adapter, the MCP
//! tools and the session socket.

pub mod action;
pub mod app;
pub mod config;
pub mod config_file;
pub mod data;
pub mod ipc;
pub mod mcp;
pub mod nav;
pub mod text;
pub mod ui;
