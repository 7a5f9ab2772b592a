//! Gossip admission, equivocation tracking and work scheduling for inclusion
//! lists and the other messages a beacon node receives from its peers.

pub mod types;
pub mod verification;
pub mod cache;
pub mod publication;
pub mod work;
pub mod processor;
pub mod recovery;
pub mod service;
