//! Lookup of a single payment by its identifier.
//!
//! A request carries the identifier as hexadecimal text. The text is decoded
//! into a fixed-length key, the key is handed to a payment store, and a record
//! that the store returns is turned into its presentable form.

pub mod hex_text;
pub mod payment_id;
pub mod get_payment_details;
