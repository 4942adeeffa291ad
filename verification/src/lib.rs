//! Fixed-dimension vector algebra over generic scalar types.
//!
//! The crate provides 2-, 3- and 4-component vectors over any scalar type
//! that satisfies the capability traits of [`num`], together with boolean
//! comparison masks and bit-exact integer packing. Every operation carries
//! a contract that pins its result down component by component.

pub mod arith;
pub mod mask;
pub mod num;
pub mod pack;
pub mod prelude;
pub mod text;
pub mod vec;

pub use num::Abs;
pub use num::Cast;
pub use num::Float;
pub use num::Int;
pub use num::Max;
pub use num::Min;
pub use num::One;
pub use num::Scalar;
pub use num::Trig;
pub use num::Zero;
pub use text::ToText;
pub use vec::Vec2;
pub use vec::Vec3;
pub use vec::Vec4;
