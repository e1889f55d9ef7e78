//! The two linked dials of the harmonic explorer: a full dial on the left and
//! a dial folded by a harmonic on the right, turned by one shared rotation.

pub mod dial;
pub mod left_dial;
pub mod right_dial;
