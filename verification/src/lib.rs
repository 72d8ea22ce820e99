//! Stitching of screen captures taken while a window scrolls.
//!
//! A session receives overlapping captures one at a time, finds by how many
//! pixels the view moved along the scroll axis, keeps the part of each
//! capture that is new, and composes the kept parts into one image.
//!
//! The session does not search for nearest neighbours itself. For every
//! frame after the first, `handle_image` answers with the edge whose index
//! is to be searched; the caller looks up the nearest stored descriptor of
//! each keypoint of the pending frame and hands the answers to
//! `handle_matches`, which votes on the shift and places the frame.

pub mod capture;
pub mod compose;
pub mod descriptor;
pub mod geometry;
pub mod imaging;
pub mod listening;
pub mod model;
pub mod placement;
pub mod raster;
pub mod session;
pub mod voting;
