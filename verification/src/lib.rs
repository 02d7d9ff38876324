//! Verified decision core for two-body Keplerian motion.
//!
//! Scalars are carried as binary64 encodings ([`num::Num`]); the crate holds
//! every rule of the engine that is an exact function of those encodings:
//! ordering and classification, the Newton iteration and its iteration cap,
//! orbit-class dispatch, the degenerate-geometry defaults of the inverse
//! conversion, the branch selection of the universal-variable propagator, and
//! the axis adapters of the presentation boundary. Rounded arithmetic and
//! transcendental functions stay with the caller.
pub mod elements;
pub mod geometry;
pub mod math;
pub mod num;
pub mod propagation;
pub mod soi;
pub mod state_vectors;
pub mod utils;
pub mod vector;

pub use crate::elements::KeplerianElements;
pub use crate::num::Num;
pub use crate::state_vectors::StateVectors;
pub use crate::vector::vec3;
pub use crate::vector::Vec3;
