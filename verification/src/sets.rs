//! The curated icon sets, one module each.

pub mod ai;
pub mod bi;
pub mod bs;
pub mod cg;
pub mod ch;
pub mod fa;
pub mod fi;
pub mod hi;
pub mod im;
pub mod io;
pub mod lu;
pub mod oc;
pub mod ri;
pub mod si;
pub mod tb;
pub mod ti;
pub mod vs;
pub mod wi;
