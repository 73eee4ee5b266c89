//! The nervous system of a small robot: a bounded publish/subscribe bus of
//! envelopes, the control loops that run over it, and the gateway that opens
//! it to other processes.

pub mod bus;
pub mod cache;
pub mod can;
pub mod command;
pub mod debug_mode;
pub mod envelope;
pub mod gateway;
pub mod history;
pub mod map;
pub mod mesh_store;
pub mod mode;
pub mod morphology;
pub mod planner;
pub mod policy;
pub mod reflex;
pub mod registry;
pub mod schedule;
pub mod vision;
