use rand_pcg::Pcg32;
use vstd::prelude::*;

use crate::geometry::{Dir, Point, PointValue, Size, ANIMATION_SPEED, NUM_FRAMES, PAD};
use crate::random::{gen_bool, gen_range_i32, gen_range_u32, gen_range_u8, gen_ratio};
use crate::sprite::Sprite;

verus! {

/// One swimming instance of a sprite.
#[derive(Clone, Copy)]
pub struct Fish<'a> {
    pub fish_type: Sprite<'a>,
    /// Upper left corner of the padded bounding box, on the screen.
    pub upper_left: Point,
    /// Size of the padded bounding box.
    pub size: Size,
    pub direction: Dir,
    /// Animation phase; the frame shown is `animation / ANIMATION_SPEED`.
    pub animation: u8,
}

/// Number of animation phases a fish cycles through.
pub open spec fn num_phases() -> int {
    NUM_FRAMES * ANIMATION_SPEED
}

impl<'a> Fish<'a> {
    /// The box is the sprite grown by `PAD` on every side, and the phase
    /// names one of the three frames.
    pub open spec fn wf(&self) -> bool {
        &&& self.fish_type.wf()
        &&& self.size.width == self.fish_type.size.width + 2 * PAD
        &&& self.size.height == self.fish_type.size.height + 2 * PAD
        &&& self.animation < num_phases()
    }

    /// The screen is larger than the box on both axes, and a coordinate one
    /// pixel past its edges is still an `i32`.
    pub open spec fn fits(&self, screen: Size) -> bool {
        &&& self.size.width < screen.width < i32::MAX
        &&& self.size.height < screen.height < i32::MAX
    }

    /// The screen point `(x, y)` lies within the bounding box.
    pub open spec fn in_box(&self, x: int, y: int) -> bool {
        &&& self.upper_left.x <= x < self.upper_left.x + self.size.width
        &&& self.upper_left.y <= y < self.upper_left.y + self.size.height
    }

    /// Column of the sprite's padded box shown at screen column `x`: a fish
    /// facing left is drawn mirrored.
    pub open spec fn local_x(&self, x: int) -> int {
        let lx = x - self.upper_left.x;
        if self.direction == Dir::Left {
            self.size.width - (lx + 1)
        } else {
            lx
        }
    }

    /// What the fish shows at the screen point `(x, y)`.
    pub open spec fn value_at(&self, x: int, y: int) -> PointValue {
        if !self.in_box(x, y) {
            PointValue::OutOfRange
        } else {
            self.fish_type.value_at(
                self.local_x(x),
                y - self.upper_left.y,
                (self.animation / ANIMATION_SPEED) as int,
            )
        }
    }

    /// The bounding box meets the closed screen rectangle.
    pub open spec fn visible(&self, screen: Size) -> bool {
        &&& self.upper_left.y <= screen.height
        &&& self.upper_left.y + self.size.height >= 0
        &&& self.upper_left.x <= screen.width
        &&& self.upper_left.x + self.size.width >= 0
    }

    /// The box lies within the screen, away from its right and bottom
    /// edges, as the tank first places every fish.
    pub open spec fn placed(&self, screen: Size) -> bool {
        &&& 0 <= self.upper_left.x < screen.width - self.size.width
        &&& 0 <= self.upper_left.y < screen.height - self.size.height
    }

    /// `self` is `old` placed afresh at an edge of the screen: facing left
    /// just past the right edge, facing right just before the left edge, at
    /// a height where the box lies within the screen.
    pub open spec fn respawned_from(&self, old: Fish<'a>, screen: Size) -> bool {
        &&& self.fish_type == old.fish_type
        &&& self.size == old.size
        &&& self.animation < num_phases()
        &&& self.direction == Dir::Left ==> self.upper_left.x == screen.width
        &&& self.direction == Dir::Right ==> self.upper_left.x == -self.size.width
        &&& 0 <= self.upper_left.y < screen.height - self.size.height
    }

    /// `self` after one tick: a step in the facing direction if `moved`, a
    /// vertical shift by `dy`, and the next animation phase.
    pub open spec fn drifted(&self, moved: bool, dy: int) -> Fish<'a> {
        let dx: int = if !moved {
            0
        } else if self.direction == Dir::Left {
            -1
        } else {
            1
        };
        let next = self.animation + 1;
        Fish {
            upper_left: Point {
                x: (self.upper_left.x + dx) as i32,
                y: (self.upper_left.y + dy) as i32,
            },
            animation: (if next >= num_phases() {
                0
            } else {
                next
            }) as u8,
            ..*self
        }
    }

    /// `self` is what one tick makes of `old`: for some outcome of the
    /// draws, `old` drifted, and respawned if its box then missed the screen.
    pub open spec fn swum_from(&self, old: Fish<'a>, screen: Size) -> bool {
        exists|moved: bool, dy: int|
            -1 <= dy <= 1 && {
                let d = #[trigger] old.drifted(moved, dy);
                if d.visible(screen) {
                    *self == d
                } else {
                    self.respawned_from(d, screen)
                }
            }
    }

    /// A fish of `sprite`, facing right at the origin, in phase zero.
    pub fn new(sprite: Sprite<'a>) -> (r: Fish<'a>)
        requires
            sprite.wf(),
        ensures
            r.wf(),
            r.fish_type == sprite,
            r.upper_left == (Point { x: 0, y: 0 }),
            r.size.width == sprite.size.width + 2 * PAD,
            r.size.height == sprite.size.height + 2 * PAD,
            r.direction == Dir::Right,
            r.animation == 0,
    {
        let ff2: u32 = (PAD * 2) as u32;
        Fish {
            fish_type: sprite,
            upper_left: Point::new(0, 0),
            size: Size::new(sprite.size.width + ff2, sprite.size.height + ff2),
            direction: Dir::Right,
            animation: 0,
        }
    }

    /// What the fish shows at a screen point: `OutOfRange` outside its box,
    /// else its sprite's pixel, mirrored when it faces left.
    pub fn get_point(&self, pt: &Point) -> (r: PointValue)
        requires
            self.wf(),
        ensures
            r == self.value_at(pt.x as int, pt.y as int),
    {
        let left: i64 = self.upper_left.x as i64;
        let top: i64 = self.upper_left.y as i64;
        let px: i64 = pt.x as i64;
        let py: i64 = pt.y as i64;
        if px < left || py < top || px >= left + self.size.width as i64 || py >= top
            + self.size.height as i64 {
            PointValue::OutOfRange
        } else {
            let mut x: i64 = px - left;
            let y: i64 = py - top;
            if self.direction == Dir::Left {
                x = self.size.width as i64 - (x + 1);
            }
            self.fish_type.get_point(&Point::new(x as i32, y as i32), self.animation / ANIMATION_SPEED)
        }
    }

    /// Whether the bounding box meets the closed screen rectangle.
    pub fn on_screen(&self, screen: &Size) -> (r: bool)
        ensures
            r == self.visible(*screen),
    {
        self.upper_left.y as i64 <= screen.height as i64 && self.upper_left.y as i64
            + self.size.height as i64 >= 0 && self.upper_left.x as i64 <= screen.width as i64
            && self.upper_left.x as i64 + self.size.width as i64 >= 0
    }

    /// `self` placed afresh with the given draws: phase `phase`; facing
    /// left just past the right edge if `left`, else facing right just
    /// before the left edge; upper edge at row `y`.
    pub open spec fn respawned_with(&self, screen: Size, phase: u8, left: bool, y: u32) -> Fish<'a> {
        Fish {
            animation: phase,
            direction: if left {
                Dir::Left
            } else {
                Dir::Right
            },
            upper_left: Point {
                x: if left {
                    screen.width as i32
                } else {
                    (-self.size.width) as i32
                },
                y: y as i32,
            },
            ..*self
        }
    }

    /// Places the fish afresh with the outcomes of its draws given: phase
    /// `phase`, the side by `left`, the upper edge at row `y`.
    pub fn respawn(&mut self, screen: &Size, phase: u8, left: bool, y: u32)
        requires
            old(self).fits(*screen),
        ensures
            *final(self) == old(self).respawned_with(*screen, phase, left, y),
    {
        self.animation = phase;
        if left {
            self.direction = Dir::Left;
            self.upper_left.x = screen.width as i32;
        } else {
            self.direction = Dir::Right;
            self.upper_left.x = -(self.size.width as i32);
        }
        self.upper_left.y = y as i32;
    }

    /// Respawns the fish at a random edge, height and phase.
    pub fn randomize(&mut self, screen: &Size, rng: &mut Pcg32)
        requires
            old(self).wf(),
            old(self).fits(*screen),
        ensures
            final(self).wf(),
            final(self).respawned_from(*old(self), *screen),
            final(self).visible(*screen),
            exists|phase: u8, left: bool, y: u32|
                phase < num_phases() && y < screen.height - old(self).size.height && *final(self)
                    == #[trigger] old(self).respawned_with(*screen, phase, left, y),
    {
        let lo: u8 = 0;
        let hi: u8 = NUM_FRAMES as u8;
        let phase = gen_range_u8(rng, lo, hi * ANIMATION_SPEED);
        let left = gen_bool(rng);
        let y = gen_range_u32(rng, 0, screen.height - self.size.height);
        self.respawn(screen, phase, left, y);
        assert(*self == old(self).respawned_with(*screen, phase, left, y));
    }

    /// Moves the fish to a random column where its box lies within the
    /// screen.
    pub fn randomize_x(&mut self, screen: &Size, rng: &mut Pcg32)
        requires
            old(self).wf(),
            old(self).fits(*screen),
        ensures
            *final(self) == (Fish { upper_left: Point { x: final(self).upper_left.x, ..old(self).upper_left }, ..*old(self) }),
            0 <= final(self).upper_left.x < screen.width - final(self).size.width,
    {
        self.upper_left.x = gen_range_u32(rng, 0, screen.width - self.size.width) as i32;
    }

    /// One tick with the outcomes of its draws given: a step in the facing
    /// direction if `moved`, a vertical shift by `dy`, the next phase.
    pub fn drift(&mut self, moved: bool, dy: i32)
        requires
            -1 <= dy <= 1,
            old(self).animation < num_phases(),
            i32::MIN < old(self).upper_left.x < i32::MAX,
            i32::MIN < old(self).upper_left.y < i32::MAX,
        ensures
            *final(self) == old(self).drifted(moved, dy as int),
    {
        if moved {
            self.upper_left.x = self.upper_left.x + match self.direction {
                Dir::Left => -1i32,
                Dir::Right => 1i32,
            };
        }
        self.upper_left.y = self.upper_left.y + dy;
        self.animation = self.animation + 1;
        let num_frames: u8 = NUM_FRAMES as u8;
        if self.animation >= num_frames * ANIMATION_SPEED {
            self.animation = 0;
        }
    }

    /// One tick: with chance 3/4 a step in the facing direction, with chance
    /// 1/8 a vertical shift by -1, 0 or 1, the next phase; a fish whose box
    /// then misses the screen entirely respawns.
    pub fn swim(&mut self, screen: &Size, rng: &mut Pcg32)
        requires
            old(self).wf(),
            old(self).fits(*screen),
            old(self).visible(*screen),
        ensures
            final(self).wf(),
            final(self).fits(*screen),
            final(self).visible(*screen),
            final(self).swum_from(*old(self), *screen),
    {
        let moved = gen_ratio(rng, 3, 4);
        let mut dy: i32 = 0;
        if gen_ratio(rng, 1, 8) {
            dy = gen_range_i32(rng, -1, 2);
        }
        self.drift(moved, dy);
        let ghost d = *self;
        if self.on_screen(screen) == false {
            self.randomize(screen, rng);
        }
        assert(old(self).drifted(moved, dy as int) == d);
    }
}

/// A fish facing left shows, at each point of its box, what the same fish
/// facing right shows at the point mirrored about the box's vertical axis.
pub proof fn lemma_mirror(right: Fish, x: int, y: int)
    requires
        right.wf(),
        right.direction == Dir::Right,
        right.in_box(x, y),
    ensures
        ({
            let left = Fish { direction: Dir::Left, ..right };
            let mirrored = 2 * right.upper_left.x + right.size.width - 1 - x;
            &&& right.in_box(mirrored, y)
            &&& left.value_at(x, y) == right.value_at(mirrored, y)
        }),
{
}

/// Within its box, a fish is never opaque on the margin of width `PAD`
/// that surrounds its sprite.
pub proof fn lemma_margin_transparent(f: Fish, x: int, y: int)
    requires
        f.wf(),
        f.in_box(x, y),
        ({
            let lx = x - f.upper_left.x;
            let ly = y - f.upper_left.y;
            lx < PAD || lx >= f.size.width - PAD || ly < PAD || ly >= f.size.height - PAD
        }),
    ensures
        f.value_at(x, y) == PointValue::Transparent,
{
}

/// The phase of a well-formed fish, and so of every fish a tank holds
/// after building and after each tick, names one of the sprite's three
/// frames.
pub proof fn lemma_phase_in_range(f: Fish)
    requires
        f.wf(),
    ensures
        0 <= f.animation < NUM_FRAMES * ANIMATION_SPEED,
        0 <= f.animation / ANIMATION_SPEED < NUM_FRAMES,
{
}

} // verus!
