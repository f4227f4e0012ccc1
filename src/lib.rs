//! Procedural generation of a star-map universe: stellar classification
//! drawn from probability tables, and planetary systems whose moons are
//! captured by Hill-sphere dominance and torn into rings inside the Roche
//! limit. Physical quantities are held as integers in fixed units so that
//! every decision the generator makes is verified.
pub mod common;
pub mod math;
mod random;
pub mod star;
pub mod system;
