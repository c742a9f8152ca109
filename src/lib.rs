use vstd::prelude::*;

pub mod camera;
pub mod march;
pub mod ppm;
