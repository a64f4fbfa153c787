//! Data-and-session core of a used-equipment marketplace client.
//!
//! The crate holds a relational store of user accounts and equipment listings,
//! the credential hashing used to authenticate users, and the session object
//! that records who is using the client. Every operation is stated over a
//! mathematical model of the store and proved against it.
pub mod credentials;
pub mod db;
pub mod error;
pub mod laws;
pub mod model;
pub mod records;
pub mod seed;
pub mod sorting;
pub mod statemanager;
pub mod text;
