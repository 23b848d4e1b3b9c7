//! Session core of a small to-do service.
//!
//! A client logs in with a user name and a password and receives a passport:
//! an access token that lives for a day and a refresh token that lives for a
//! week, each a signed set of claims under a secret of its own. Every later
//! request passes a guard that reads the access token from the `Cookie`
//! header and resolves the subject; a refresh trades the refresh token for a
//! new passport without moving the session's end.
//!
//! Everything here works on plain values. Awaiting a user store, reading
//! request headers and writing responses is left to the program around it.
//!
//! The modules, from the leaves up:
//!
//! - [`claims`], [`credentials`], [`domain`]: the data.
//! - [`token`]: signing and verifying, on top of `jsonwebtoken`.
//! - [`session`]: issuing a passport and rotating it.
//! - [`authentication`]: login and refresh.
//! - [`cookies`], [`cookie_laws`]: tokens as cookies.
//! - [`http`]: the guard and the replies of the routes.
//! - [`repositories`]: the stores held in memory.
//! - [`clock`], [`ids`], [`text`]: time, identifiers and text.
//!
//! What is taken on trust is marked `external_body`: the calls into
//! `jsonwebtoken`, `chrono` and `uuid`. What `jsonwebtoken` returns is named
//! in [`token`], not defined. All else is proved.

pub mod authentication;
pub mod claims;
pub mod clock;
pub mod cookie_laws;
pub mod cookies;
pub mod credentials;
pub mod domain;
pub mod http;
pub mod ids;
pub mod repositories;
pub mod session;
pub mod text;
pub mod token;
