//! Scheduling core and inter-task messaging for a small Cortex-M executive.
#![allow(non_snake_case)]
#![allow(non_camel_case_types)]

pub mod task;
pub mod intercom;
pub mod stack;
pub mod application;
pub mod os;
pub mod peripherals;
pub mod cortex;
pub mod isr;
