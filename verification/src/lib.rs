//! Backend of a desktop file manager: the entity metadata model, pins and
//! tabs, sorting, the directory walk, and the decisions of the controller and
//! model actors, each with a machine-checked contract.
//!
//! The library neither reads the filesystem nor sends messages. Whoever
//! drives it reads and sends, and hands the library what was read.

pub mod commands;
pub mod config;
pub mod controller;
pub mod entity;
pub mod error;
pub mod model;
pub mod numeral;
pub mod order;
pub mod path;
pub mod pin;
pub mod sort;
pub mod tab;
