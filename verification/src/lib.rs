//! Verified core of the life-gl program: the colour-argument grammar, the
//! grid geometry, option normalisation, and the decisions of the frame loop.

pub mod colour;
pub mod grid;
pub mod options;
pub mod frame_loop;
pub mod rules;
