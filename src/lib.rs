//! Poll relay and vote tracking for a community bot: a text codec for
//! stored values, a typed option store, a vote ledger, a non-voter resolver
//! and the relay's decision logic.

pub mod codec;
pub mod roster;
pub mod ledger;
pub mod resolver;
pub mod relay;
pub mod options;
