//! The lifecycle of a small rendering session: vertex layout and geometry
//! checks, shader result policy, texture decoding, the frame loop's decisions
//! and the order of teardown. Window, graphics calls and floating point stay
//! with the caller.

use vstd::prelude::*;

pub mod geometry;
pub mod layout;
pub mod session;
pub mod shader;
pub mod texture;

verus! {

} // verus!
