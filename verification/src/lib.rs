//! Core of a completely-fair (CFS-style) task scheduler for a small
//! multitasking kernel: the per-task scheduling state and its weight/vruntime
//! arithmetic, the ready queue ordered by virtual runtime, and the pid
//! registry that maps a process id to its process control block.

pub mod config;
pub mod manager;
pub mod task;
pub mod workload;
