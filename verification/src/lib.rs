//! Deployment-target resolution and build-configuration synthesis for iOS
//! applications.
//!
//! The crate decides *where* an application is deployed (a connected device
//! or a simulator, picked by a fuzzy name hint or by the user) and *how* its
//! build is configured (signing team, linked and embedded frameworks, bundle
//! metadata, signing mode). Every decision is a function of plain values
//! with a machine-checked contract; enumerating devices, prompting the user
//! and touching files are left to the caller.

pub mod text;
pub mod matcher;
pub mod paths;
pub mod merge;
pub mod cli;
pub mod config;
pub mod target;
pub mod signing;
