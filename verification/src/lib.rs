//! A registry of the cells of a pixel wall.

pub mod chain;
pub mod contract;
pub mod error;
pub mod execute;
pub mod laws;
pub mod msg;
pub mod query;
pub mod response;
pub mod state;
pub mod text;
pub mod wall;

pub use crate::error::ContractError;
