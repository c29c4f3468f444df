use vstd::prelude::*;

use crate::geometry::{Pixel, Point, PointValue, Size, BACKGROUND};
use crate::tank::FishTank;

verus! {

/// The point `(x, y)` comes before `p` in raster order: rows top to
/// bottom, each left to right.
pub open spec fn earlier(x: int, y: int, p: Point) -> bool {
    y < p.y || (y == p.y && x < p.x)
}

/// The point `(x, y)` lies on the screen.
pub open spec fn on_screen(x: int, y: int, screen: Size) -> bool {
    0 <= x < screen.width && 0 <= y < screen.height
}

/// The point after `p` in raster order.
pub open spec fn raster_next(p: Point, screen: Size) -> Point {
    if p.x + 1 >= screen.width {
        Point { x: 0, y: (p.y + 1) as i32 }
    } else {
        Point { x: (p.x + 1) as i32, y: p.y }
    }
}

/// The colour that repaints a point showing `v`: the water where no
/// opaque pixel covers it.
pub open spec fn repaint_color(v: PointValue) -> u16 {
    match v {
        PointValue::Opaque(c) => c,
        _ => BACKGROUND,
    }
}

/// No fish's box covers any screen point from `from` up to, not
/// including, `to`.
pub open spec fn untouched(tank: FishTank, from: Point, to: Point) -> bool {
    forall|x: int, y: int|
        on_screen(x, y, tank.size) && !earlier(x, y, from) && earlier(x, y, to)
            ==> #[trigger] tank.value_at(x, y) is OutOfRange
}

/// One pass over the screen in raster order that yields only the points
/// some fish's box covers, each with the colour to paint there.
pub struct TankIterator<'a> {
    pub tank: &'a FishTank<'a>,
    /// The next point to look at.
    pub position: Point,
}

impl<'a> TankIterator<'a> {
    /// The tank is well formed and the position lies on the screen, or at
    /// the start of the row below it.
    pub open spec fn wf(&self) -> bool {
        &&& self.tank.wf()
        &&& 0 <= self.position.y <= self.tank.size.height
        &&& 0 <= self.position.x
        &&& (self.position.x < self.tank.size.width || self.position.x == 0)
    }

    /// A pass over `fish_tank` from its upper left corner.
    pub fn new(fish_tank: &'a FishTank<'a>) -> (r: TankIterator<'a>)
        requires
            fish_tank.wf(),
        ensures
            r.wf(),
            r.tank == fish_tank,
            r.position == (Point { x: 0, y: 0 }),
    {
        TankIterator { tank: fish_tank, position: Point::new(0, 0) }
    }

    /// The colour `c` at the current position.
    pub fn some_color(&self, c: u16) -> (r: Option<Pixel>)
        ensures
            r == Some(Pixel { position: self.position, color: c }),
    {
        Some(Pixel { position: self.position, color: c })
    }

    /// The next point in raster order that some fish's box covers, with
    /// the colour of the first fish opaque there or else the water's;
    /// `None` once no such point is left. Points no box covers are passed
    /// over: nothing there has changed since the water was drawn.
    pub fn next(&mut self) -> (r: Option<Pixel>)
        requires
            old(self).wf(),
        ensures
            final(self).wf(),
            final(self).tank == old(self).tank,
            match r {
                Some(px) => {
                    let p = px.position;
                    &&& on_screen(p.x as int, p.y as int, old(self).tank.size)
                    &&& !earlier(p.x as int, p.y as int, old(self).position)
                    &&& !(old(self).tank.value_at(p.x as int, p.y as int) is OutOfRange)
                    &&& px.color == repaint_color(old(self).tank.value_at(p.x as int, p.y as int))
                    &&& untouched(*old(self).tank, old(self).position, p)
                    &&& final(self).position == raster_next(p, old(self).tank.size)
                },
                None => {
                    &&& untouched(*old(self).tank, old(self).position, final(self).position)
                    &&& final(self).position == (if old(self).position.y == old(self).tank.size.height {
                        old(self).position
                    } else {
                        Point { x: 0, y: old(self).tank.size.height as i32 }
                    })
                },
            },
    {
        let ghost start = self.position;
        let width: i64 = self.tank.size.width as i64;
        let height: i64 = self.tank.size.height as i64;
        loop
            invariant
                self.wf(),
                self.tank == old(self).tank,
                start == old(self).position,
                width == self.tank.size.width,
                height == self.tank.size.height,
                !earlier(self.position.x as int, self.position.y as int, start),
                start.y == height ==> self.position == start,
                self.position.y == height && start.y < height ==> self.position.x == 0,
                untouched(*self.tank, start, self.position),
            decreases height - self.position.y, width - self.position.x,
        {
            if self.position.y as i64 >= height {
                return None;
            }
            let ghost here = self.position;
            let pv = self.tank.get_point(&self.position);
            let ret = match pv {
                PointValue::OutOfRange => None,
                PointValue::Transparent => self.some_color(BACKGROUND),
                PointValue::Opaque(color) => self.some_color(color),
            };
            self.position.x = self.position.x + 1;
            if self.position.x as i64 >= width {
                self.position.x = 0;
                self.position.y = self.position.y + 1;
            }
            assert(self.position == raster_next(here, self.tank.size));
            if let Some(_) = ret {
                return ret;
            }
            assert forall|x: int, y: int|
                on_screen(x, y, self.tank.size) && !earlier(x, y, start) && earlier(
                    x,
                    y,
                    self.position,
                ) implies #[trigger] self.tank.value_at(x, y) is OutOfRange by {
                if earlier(x, y, here) {
                } else {
                    assert(x == here.x && y == here.y);
                }
            }
        }
    }
}

} // verus!
