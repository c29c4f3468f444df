use vstd::prelude::*;
use vstd::slice::slice_subrange;

use crate::geometry::{Point, PointValue, Size, PAD, TRANSPARENT};

verus! {

/// Why a species could not be decoded from an atlas.
#[derive(Clone, Copy, Debug, PartialEq, Eq, Structural)]
pub enum DecodeError {
    /// The atlas ends before the species' four-word header does.
    MissingHeader,
    /// The header gives a width or a height of zero.
    EmptySprite,
    /// One of the three frames runs past the end of the atlas.
    FrameOutOfBounds,
}

/// The pixels of one species: its size and three animation frames, each a
/// row-major view into the atlas it was decoded from.
#[derive(Clone, Copy)]
pub struct Sprite<'a> {
    pub size: Size,
    pub frames: [&'a [u16]; 3],
}

/// Width packed in the first header word of species `n`.
pub open spec fn header_width(data: Seq<u16>, n: int) -> int {
    data[4 * n] as int / 256
}

/// Height packed in the first header word of species `n`.
pub open spec fn header_height(data: Seq<u16>, n: int) -> int {
    data[4 * n] as int % 256
}

/// Word offset at which frame `f` of species `n` starts.
pub open spec fn frame_start(data: Seq<u16>, n: int, f: int) -> int {
    data[4 * n + 1 + f] as int
}

/// Word just past the end of frame `f` of species `n`.
pub open spec fn frame_end(data: Seq<u16>, n: int, f: int) -> int {
    frame_start(data, n, f) + header_width(data, n) * header_height(data, n)
}

/// Why species `n` of the atlas `data` cannot be decoded, if it cannot.
pub open spec fn decode_error(data: Seq<u16>, n: int) -> Option<DecodeError> {
    if 4 * n + 4 > data.len() {
        Some(DecodeError::MissingHeader)
    } else if header_width(data, n) == 0 || header_height(data, n) == 0 {
        Some(DecodeError::EmptySprite)
    } else if exists|f: int| 0 <= f < 3 && #[trigger] frame_end(data, n, f) > data.len() {
        Some(DecodeError::FrameOutOfBounds)
    } else {
        None
    }
}

/// `s` is species `n` of the atlas `data`.
pub open spec fn decodes_to(data: Seq<u16>, n: int, s: Sprite) -> bool {
    &&& s.size.width == header_width(data, n)
    &&& s.size.height == header_height(data, n)
    &&& forall|f: int|
        0 <= f < 3 ==> (#[trigger] s.frames@[f])@ == data.subrange(
            frame_start(data, n, f),
            frame_end(data, n, f),
        )
}

impl<'a> Sprite<'a> {
    /// Every frame holds one word per pixel.
    pub open spec fn wf(&self) -> bool {
        &&& self.size.width <= 255
        &&& self.size.height <= 255
        &&& forall|f: int|
            0 <= f < 3 ==> (#[trigger] self.frames@[f])@.len() == self.size.width
                * self.size.height
    }

    /// What frame `frame` shows at the point `(x, y)` of the padded box:
    /// the body is inset by `PAD` on every side.
    pub open spec fn value_at(&self, x: int, y: int, frame: int) -> PointValue {
        let lx = x - PAD;
        let ly = y - PAD;
        if lx < 0 || ly < 0 || lx >= self.size.width || ly >= self.size.height {
            PointValue::Transparent
        } else {
            let c = self.frames@[frame]@[lx + ly * self.size.width];
            if c == TRANSPARENT {
                PointValue::Transparent
            } else {
                PointValue::Opaque(c)
            }
        }
    }

    /// Looks up a point of the padded box in frame `animation`.
    pub fn get_point(&self, pt: &Point, animation: u8) -> (r: PointValue)
        requires
            self.wf(),
            animation < 3,
        ensures
            r == self.value_at(pt.x as int, pt.y as int, animation as int),
    {
        let x: i64 = pt.x as i64 - PAD as i64;
        let y: i64 = pt.y as i64 - PAD as i64;
        if x < 0 || y < 0 || x >= self.size.width as i64 || y >= self.size.height as i64 {
            PointValue::Transparent
        } else {
            let xu: usize = x as usize;
            let yu: usize = y as usize;
            let width: usize = self.size.width as usize;
            let height: usize = self.size.height as usize;
            proof {
                assert(yu * width + xu < width * height) by (nonlinear_arith)
                    requires
                        xu < width,
                        yu < height,
                        width <= 255,
                        height <= 255,
                ;
                assert(yu * width <= 255 * 255) by (nonlinear_arith)
                    requires
                        yu < 255,
                        width <= 255,
                ;
            }
            let idx: usize = xu + yu * width;
            let frame: &[u16] = self.frames[animation as usize];
            let c = frame[idx];
            if c == TRANSPARENT {
                PointValue::Transparent
            } else {
                PointValue::Opaque(c)
            }
        }
    }

    /// Decodes species `sprite_num` of an atlas of 16-bit words. Its header
    /// stands at word `4 * sprite_num`: `(width << 8) | height`, then the
    /// word offsets of its three frames, each `width * height` words long.
    pub fn make_sprite(sprite_num: usize, sprite_data: &'a [u16]) -> (r: Result<
        Sprite<'a>,
        DecodeError,
    >)
        ensures
            r is Err <==> decode_error(sprite_data@, sprite_num as int) is Some,
            r is Err ==> Some(r->Err_0) == decode_error(sprite_data@, sprite_num as int),
            r is Ok ==> decodes_to(sprite_data@, sprite_num as int, r->Ok_0),
            r is Ok ==> r->Ok_0.wf(),
    {
        let len = sprite_data.len();
        if len / 4 <= sprite_num {
            return Err(DecodeError::MissingHeader);
        }
        let header_index: usize = 4 * sprite_num;
        let width_height = sprite_data[header_index];
        let width = width_height / 256;
        let height = width_height % 256;
        if width == 0 || height == 0 {
            return Err(DecodeError::EmptySprite);
        }
        proof {
            assert(width * height <= 255 * 255) by (nonlinear_arith)
                requires
                    width <= 255,
                    height <= 255,
            ;
        }
        let num_words: usize = (width as usize) * (height as usize);
        let f0 = frame_slice(sprite_data, header_index, 0, num_words);
        let f1 = frame_slice(sprite_data, header_index, 1, num_words);
        let f2 = frame_slice(sprite_data, header_index, 2, num_words);
        match (f0, f1, f2) {
            (Some(f0), Some(f1), Some(f2)) => {
                let sprite = Sprite { size: Size::new(width as u32, height as u32), frames: [f0, f1, f2] };
                assert(sprite.frames@[0] == f0 && sprite.frames@[1] == f1 && sprite.frames@[2] == f2);
                Ok(sprite)
            },
            _ => {
                assert(frame_end(sprite_data@, sprite_num as int, 0) > len || frame_end(
                    sprite_data@,
                    sprite_num as int,
                    1,
                ) > len || frame_end(sprite_data@, sprite_num as int, 2) > len);
                Err(DecodeError::FrameOutOfBounds)
            },
        }
    }
}

/// The `num_words` words of frame `frame` whose offset the header at
/// `header_index` gives, if they lie within the atlas.
fn frame_slice<'a>(sprite_data: &'a [u16], header_index: usize, frame: usize, num_words: usize) -> (r:
    Option<&'a [u16]>)
    requires
        header_index + 4 <= sprite_data@.len(),
        frame < 3,
        num_words <= 255 * 255,
    ensures
        ({
            let start = sprite_data@[header_index + 1 + frame] as int;
            &&& r is Some <==> start + num_words <= sprite_data@.len()
            &&& r is Some ==> r->Some_0@ == sprite_data@.subrange(start, start + num_words)
        }),
{
    let len = sprite_data.len();
    let start: usize = sprite_data[header_index + 1 + frame] as usize;
    let end: usize = start + num_words;
    if end > len {
        None
    } else {
        Some(slice_subrange(sprite_data, start, end))
    }
}

} // verus!
