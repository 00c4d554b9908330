//! A small task-dispatch core: a last-in-first-out work queue of actions,
//! the decisions of the loop that drains it through a worker, and a registry
//! that binds named operations to callables once their signature is known.
#![allow(non_snake_case)]

pub mod action;
pub mod queue;
pub mod registry;
pub mod dispatch;
