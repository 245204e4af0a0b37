//! Decoding of a save-game document into typed records.
//!
//! A document is an arena of nodes ([`document`]), read from XML text by
//! [`reader`]. A record is decoded from the element children of one node,
//! looked up by tag name ([`fields`]): its scalars ([`scalar`], [`number`],
//! [`numeral`]), its nested records ([`record`]) and its lists ([`list`]).
//! Every failure names the field that was being decoded and the fields that
//! it is nested in ([`failure`]). The records of a save game are in
//! [`stardew`].

pub mod document;
pub mod failure;
pub mod fields;
pub mod list;
pub mod number;
pub mod numeral;
pub mod reader;
pub mod record;
pub mod scalar;
pub mod stardew;
pub mod text;
