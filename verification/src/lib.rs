//! Benchmark harness core for concurrent associative containers: a uniform
//! capability contract for map adapters, workload mix presets, and the run
//! orchestrator's scheduling, prefill and quiescence decisions.
pub mod adapters;
pub mod args;
pub mod bench;
pub mod contract;
pub mod deps;
pub mod epoch;
pub mod strutil;
pub mod table;
pub mod workload;
