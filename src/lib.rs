//! Account authentication for the Handshake marketplace: registration with
//! one-time-passcode email verification, login, and stateless bearer tokens
//! shared by every service, together with the small decision rules of the
//! catalog, order and mail services.

use vstd::prelude::*;

pub mod error;
pub mod store;
pub mod otp;
pub mod password;
pub mod token;
pub mod service;
pub mod health;
pub mod mailer;
pub mod catalog;
pub mod cors;
