//! Reconciliation core of a Kubernetes operator that manages a custom
//! resource describing a cluster's declarative dependency set.
//!
//! The library computes every decision of a reconcile pass — which external
//! tool invocations to issue, which status patches to write, and how to react
//! to each outcome — as verified code. The blocking work itself (process
//! spawning, cluster API calls, file writes) is performed by a caller-supplied
//! [`actions::ClusterRunner`], so the control logic is proved correct for
//! every possible behaviour of the outside world.


pub mod actions;
pub mod api;
pub mod cicd;
pub mod config;
pub mod controller;
pub mod crd;
pub mod dependencies;
pub mod docs;
pub mod envs;
pub mod error;
pub mod gitops;
pub mod laws;
pub mod services;
pub mod strutil;

