//! A smart house, and the verified core of a bridge to a smart-house library
//! that is loaded at run time.
//!
//! The bridge marshals strings and lists of strings (`codec`, `buffer`),
//! resolves the entry points of the library (`symbols`), keeps count of who
//! holds the loaded image (`library`), follows each object inside the
//! library from its making to its end (`bridge`) and keeps one such object
//! for each session (`registry`). It makes no call itself: every operation
//! says which entry point is to be called with which bytes, and takes what
//! came back.
//!
//! The house itself (`ident`, `device`, `room`, `house`) is what such a library
//! serves through its entry points (`exports`). Beside them stand the
//! framing of a small text protocol (`ctp`) and a few patterns (`command`,
//! `visitor`, `decorator`).

pub mod bridge;
pub mod buffer;
pub mod codec;
pub mod command;
pub mod ctp;
pub mod decorator;
pub mod device;
pub mod error;
pub mod exports;
pub mod house;
pub mod ident;
pub mod keyed;
pub mod library;
pub mod registry;
pub mod room;
pub mod symbols;
pub mod text;
pub mod visitor;
