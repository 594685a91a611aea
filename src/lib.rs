//! Credential and plant/pot linking core of a plant-monitoring service.
//!
//! Users register and log in with an email and a password and receive a
//! signed, time-bounded bearer token. A plant and a pot that belong to the
//! same user can be linked; a plant or a pot takes part in at most one link.
use vstd::prelude::*;

pub mod entities;
pub mod token;
pub mod password;
pub mod guard;
pub mod store;
pub mod link;
pub mod auth;
pub mod responses;

verus! {

} // verus!
