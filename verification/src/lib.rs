//! A futures contract instrument: a validated, immutable descriptor together
//! with its canonical key/value mapping.
//!
//! A [`FuturesContract`] is built from a [`ContractFields`] set by
//! [`FuturesContract::new`], which holds the fields to the rules of the
//! instrument and reports the first one they break. A contract exports to a
//! [`Mapping`] with [`FuturesContract::to_mapping`] and is imported from one
//! with [`FuturesContract::from_mapping`]; importing what was exported gives
//! the contract back.

pub mod codec;
pub mod contract;
pub mod decimal;
pub mod error;
pub mod fields;
pub mod identifiers;
pub mod identity;
pub mod instrument;
pub mod laws;
pub mod mapping;
pub mod price;
pub mod rate;
pub mod text;

pub use contract::FuturesContract;
pub use error::{Field, ImportError, Rule, SchemaError, ValidationError};
pub use fields::ContractFields;
pub use identifiers::InstrumentId;
pub use instrument::{AssetClass, Currency};
pub use mapping::{Mapping, Value};
pub use price::{Price, Quantity};
pub use rate::Rate;
