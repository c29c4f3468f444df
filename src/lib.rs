//! An animated aquarium: sprites decoded from a packed atlas, fish that
//! drift across a small screen, compositing of overlapping fish, and a
//! raster walk that yields only the pixels a frame has to repaint.
pub mod fish;
pub mod frame;
pub mod geometry;
mod random;
pub mod sprite;
pub mod tank;

pub use fish::Fish;
pub use frame::TankIterator;
pub use geometry::{
    Dir, Pixel, Point, PointValue, Size, ANIMATION_SPEED, BACKGROUND, NUM_FRAMES, PAD, TRANSPARENT,
};
pub use sprite::{DecodeError, Sprite};
pub use tank::{FishTank, TankError, RNG_STREAM};
