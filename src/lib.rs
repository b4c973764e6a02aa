//! A grammar engine for trading-card ability text.
//!
//! Ability text is split into statements, and each statement is parsed into a
//! structured effect (trigger, condition, cost, ordered actions) or reported as
//! unrecognized with a diagnostic. Every parser is an executable function whose
//! result is proved equal to a spec function that states the grammar.

pub mod actions;
pub mod cards;
pub mod driver;
pub mod lexical;
pub mod model;
pub mod phrases;
pub mod render;
pub mod statement;
