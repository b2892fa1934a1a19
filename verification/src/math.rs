pub mod vec;

pub use vec::Vec1;
pub use vec::Vec2;
pub use vec::Vec3;
pub use vec::Vec4;
