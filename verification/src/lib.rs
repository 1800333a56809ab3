//! Verified core of a podcast ownership-verification handshake.
//!
//! A hosting platform proves to a third-party aggregator that a named
//! customer controls a given podcast feed.  The feed embeds a public key and
//! a verification endpoint; an inbound verification request carries an
//! opaque challenge token and a caller-supplied return address, and a staged
//! validation pipeline turns the raw parameters into one of two outcome
//! states, preserving enough context at each failure point to redirect the
//! caller back.  HTTP routing, process bootstrap and the mechanics of
//! keypair generation live outside this crate; the logic here is verified.

pub mod feed;
pub mod keys;
pub mod model;
pub mod pem;
pub mod return_url;
pub mod text;
pub mod validate;
pub mod view;
