//! Verified core of the XRPL bridge contract: amount conversion and
//! truncation, XRPL/Cosmos identifier validation, and the decisions the
//! bridge's handlers take on the values they load from storage.
pub mod error;
pub mod amount;
pub mod currency;
pub mod hash;
pub mod token;
pub mod address;
pub mod bridge;
pub mod relayer;
pub mod transfers;
pub mod registration;
pub mod query;
pub mod actions;
pub mod evidence;
pub mod tickets;
pub mod fees;
pub mod operations;
pub mod outgoing;
