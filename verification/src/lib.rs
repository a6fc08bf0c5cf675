//! Game overlay: the session, routing and element-approval logic shared by the
//! overlay manager (which sits between game servers and player clients) and the
//! overlay client, with its behaviour stated in contracts and proved.

pub mod keyed_map;
pub mod json;
pub mod text;
pub mod address;
pub mod game;
pub mod messages;
pub mod handshake;
pub mod steam;
pub mod ids;
pub mod manager;
pub mod templates;
pub mod clock;
pub mod overlay;
pub mod connection;
pub mod window;
pub mod cache;
pub mod web;
pub mod login;
pub mod player_list;
pub mod token;
pub mod desktop_link;
