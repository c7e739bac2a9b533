//! A progressive-tax engine over exact decimal money in many currencies.
//!
//! - `decimal`: exact decimals, computed by `rust_decimal`;
//! - `currency`: currency tags and their display metadata;
//! - `money`: an amount tagged with a currency, with checked arithmetic;
//! - `exchange`: a table of directed rates that converts, compares, adds and
//!   clamps across currencies;
//! - `tax`: brackets, claim strategies, deduction and credit rules, incomes
//!   and the signed outcome of a calculation;
//! - `schedule`: one jurisdiction's calculation from incomes to an outcome;
//! - `regime`: several schedules evaluated together;
//! - `laws`: what holds across calls, proved from the contracts above.
pub mod currency;
pub mod decimal;
pub mod exchange;
pub mod laws;
pub mod money;
pub mod regime;
pub mod schedule;
pub mod tax;
