//! A declarative control plane core for multi-service application
//! deployments: Playbooks composed of Actors are driven toward a running
//! state by a level-triggered reconciliation engine.
//!
//! Every decision the engine takes — which partner dependencies are still
//! missing, whether a build is required, which store mutations a
//! reconciliation pass performs, and which lifecycle transition follows —
//! is computed here over plain values and proved against its contract.
//! The surrounding program performs the store and registry I/O and feeds
//! the observed outcomes back in.

pub mod builder;
pub mod controller;
pub mod credential;
pub mod perform;
pub mod workflow;
pub mod error;
pub mod model;
pub mod resolver;
pub mod resources;
pub mod service;
pub mod status;
pub mod synchronizer;
