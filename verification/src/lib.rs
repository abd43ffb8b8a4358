//! A bounded 2D particle simulation core: a fixed population of point
//! particles moving randomly inside a rectangular enclosure, with
//! brute-force pairwise proximity ("collision") detection over snapshots
//! of the particle buffer.
//!
//! Positions are held as fixed-point coordinates (thousandths of a length
//! unit), so all geometry is exact integer arithmetic.

pub mod particle;
pub mod system;
pub mod movement;
pub mod collision;
pub mod partition;
pub mod dump;
pub mod shared;
