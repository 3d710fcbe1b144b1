//! Assembling a ledger transaction one action at a time, resolving
//! replay-protection state, signing with a supplied key pair, and deciding
//! how the signed envelope is delivered — offline as a displayed artifact,
//! or online with retry on transient broadcast timeouts.

pub mod add;
pub mod chain;
pub mod codec;
pub mod ext;
pub mod model;
pub mod receiver;
pub mod sign;
pub mod submit;
pub mod text;
