//! Core of a LAN audio bridge: the decisions behind building, supervising and
//! measuring the two audio pipelines, stated over plain values and proved.

pub mod args;
pub mod config;
pub mod decimal;
pub mod device;
pub mod events;
pub mod format;
pub mod mdns;
pub mod pipeline;
pub mod plan;
pub mod sampler;
pub mod seqs;
pub mod stage;
pub mod text;
