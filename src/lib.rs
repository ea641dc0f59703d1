//! A fixed-size worker pool whose scheduling core is verified, together with
//! small verified examples of ownership, borrowing, collections, enums,
//! structs, traits and error handling.
#![allow(dead_code, unused_variables, unused_mut, unused_assignments)]

pub mod testing;
pub mod thread_pool;
pub mod pool_laws;
pub mod ownership;
pub mod references;
pub mod slice;
pub mod structs;
pub mod enums;
pub mod errors;
pub mod closures;
pub mod generics;
pub mod traits;
pub mod collections;
pub mod restaurant;
