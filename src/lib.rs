//! Credential authentication and session lifecycle for a server-rendered web
//! application: password hashing and verification, the sign-up and sign-in
//! decisions with their form validation, the session table with its sliding
//! expiry and sweep, configuration parsing and static-asset fingerprints.
//!
//! Storage, HTTP and the worker threads that hashing runs on live outside
//! this library; they hand it plain values and act on what it returns.

pub mod asset;
pub mod auth;
pub mod config;
pub mod decimal;
pub mod email;
pub mod fingerprint;
pub mod operations;
pub mod password;
pub mod session;
pub mod validation;
pub mod web;
