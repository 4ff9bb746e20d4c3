//! Verified decision and statistics core of the tiered counter latency bench.

pub mod bench_run;
pub mod engine;
pub mod experiments;
pub mod gates;
pub mod ladder;
pub mod rootcause_ladder;
pub mod seed;
pub mod snapshot;
pub mod stack;
pub mod stats;
pub mod text;
