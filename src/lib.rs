//! A WebFinger responder over a user directory: it resolves an `acct:` account
//! identifier to the single-sign-on callback URL that authenticates it.

pub mod directory;
pub mod web;
pub mod laws;
