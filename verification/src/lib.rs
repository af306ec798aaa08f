//! The verified core of the traffic light display: panel geometry, the
//! marquee, the setup portal and the firmware-update rules.

pub mod panels;
pub mod frame;
pub mod text;
pub mod font;
pub mod marquee;
pub mod display;
pub mod animation;
pub mod console;
pub mod base64;
pub mod auth;
pub mod store;
pub mod health;
pub mod form;
pub mod html;
pub mod page;
pub mod portal;
pub mod routes;
pub mod version;
pub mod networks;
pub mod settings;
pub mod boot;
pub mod ota;
