use vstd::prelude::*;

verus! {

/// Margin, in pixels, between a sprite's body and its bounding box.
pub const PAD: i32 = 2;

/// Number of animation frames of every sprite.
pub const NUM_FRAMES: usize = 3;

/// Ticks during which one animation frame stays on screen.
pub const ANIMATION_SPEED: u8 = 2;

/// Colour word that marks a pixel of a sprite as see-through.
pub const TRANSPARENT: u16 = 0xdead;

/// Colour of the water behind the fish (pure blue in RGB565).
pub const BACKGROUND: u16 = 0x1f;

/// A position on the screen, or within a box.
#[derive(Clone, Copy, Debug, PartialEq, Eq, Structural)]
pub struct Point {
    pub x: i32,
    pub y: i32,
}

/// A width and a height in pixels.
#[derive(Clone, Copy, Debug, PartialEq, Eq, Structural)]
pub struct Size {
    pub width: u32,
    pub height: u32,
}

/// What a sprite, a fish or the whole tank shows at a point.
#[derive(Clone, Copy, Debug, PartialEq, Eq, Structural)]
pub enum PointValue {
    /// The point lies outside every bounding box asked.
    OutOfRange,
    /// The point lies inside a bounding box, on no opaque pixel.
    Transparent,
    /// An opaque pixel of the given colour covers the point.
    Opaque(u16),
}

/// The way a fish faces, and so the way it swims.
#[derive(Clone, Copy, Debug, PartialEq, Eq, Structural)]
pub enum Dir {
    Left,
    Right,
}

/// A point of the screen with the colour to paint there.
#[derive(Clone, Copy, Debug, PartialEq, Eq, Structural)]
pub struct Pixel {
    pub position: Point,
    pub color: u16,
}

impl Point {
    pub fn new(x: i32, y: i32) -> (r: Point)
        ensures
            r.x == x,
            r.y == y,
    {
        Point { x, y }
    }
}

impl Size {
    pub fn new(width: u32, height: u32) -> (r: Size)
        ensures
            r.width == width,
            r.height == height,
    {
        Size { width, height }
    }
}

/// The red, green and blue fields of a packed RGB565 colour word.
pub open spec fn rgb565_channels(c: u16) -> (u8, u8, u8) {
    ((c / 2048) as u8, ((c / 32) % 64) as u8, (c % 32) as u8)
}

impl Pixel {
    /// Splits the colour into its 5-bit red, 6-bit green and 5-bit blue
    /// fields.
    pub fn channels(&self) -> (r: (u8, u8, u8))
        ensures
            r == rgb565_channels(self.color),
    {
        let c = self.color;
        let red = c >> 11u16;
        let green = (c >> 5u16) & 0x3fu16;
        let blue = c & 0x1fu16;
        assert(c >> 11u16 == c / 2048u16) by (bit_vector);
        assert((c >> 5u16) & 0x3fu16 == (c / 32u16) % 64u16) by (bit_vector);
        assert(c & 0x1fu16 == c % 32u16) by (bit_vector);
        (red as u8, green as u8, blue as u8)
    }
}

} // verus!
