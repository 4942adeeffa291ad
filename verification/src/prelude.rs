//! The crate's common imports in one place.

pub use crate::num::Abs;
pub use crate::num::Cast;
pub use crate::num::Float;
pub use crate::num::Int;
pub use crate::num::Max;
pub use crate::num::Min;
pub use crate::num::One;
pub use crate::num::Scalar;
pub use crate::num::Trig;
pub use crate::num::Zero;
pub use crate::text::ToText;
pub use crate::vec::Vec2;
pub use crate::vec::Vec3;
pub use crate::vec::Vec4;
