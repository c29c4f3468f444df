use byte_slice_cast::AsSliceOf;
use rand_pcg::Pcg32;
use vstd::prelude::*;

use crate::fish::Fish;
use crate::geometry::{Point, PointValue, Size, PAD};
use crate::random::new_rng;
use crate::sprite::{decode_error, decodes_to, header_height, header_width, DecodeError, Sprite};

verus! {

/// Stream of the PCG generator that drives the fish.
pub const RNG_STREAM: u64 = 0xdefacedbadfacade;

/// Why a tank could not be built.
#[derive(Clone, Copy, Debug, PartialEq, Eq, Structural)]
pub enum TankError {
    /// The atlas bytes cannot be read as 16-bit words in place: their
    /// number is odd, or they are not aligned for `u16`.
    NotWords,
    /// A species the tank needs cannot be decoded.
    Decode(DecodeError),
    /// The bounding box of a species is not smaller than the screen on
    /// both axes.
    ScreenTooSmall,
}

/// The scene: one fish per species, the screen they swim across, and the
/// generator that drives them.
pub struct FishTank<'a> {
    pub sprites: Vec<Sprite<'a>>,
    pub fish: Vec<Fish<'a>>,
    pub size: Size,
    pub rng: Pcg32,
}

/// What the first `n` fish of `fish` show together at `(x, y)`: the first
/// opaque one wins; else `Transparent` if any box holds the point.
pub open spec fn composite(fish: Seq<Fish>, n: int, x: int, y: int) -> PointValue
    decreases n,
{
    if n <= 0 {
        PointValue::OutOfRange
    } else {
        let prev = composite(fish, n - 1, x, y);
        match prev {
            PointValue::Opaque(c) => PointValue::Opaque(c),
            _ => match fish[n - 1].value_at(x, y) {
                PointValue::Opaque(c) => PointValue::Opaque(c),
                PointValue::Transparent => PointValue::Transparent,
                PointValue::OutOfRange => prev,
            },
        }
    }
}

/// Once some fish among the first `m` is opaque at a point, more fish
/// behind it change nothing there.
pub proof fn lemma_opaque_stays(fish: Seq<Fish>, m: int, n: int, x: int, y: int)
    requires
        0 <= m <= n,
        composite(fish, m, x, y) is Opaque,
    ensures
        composite(fish, n, x, y) == composite(fish, m, x, y),
    decreases n - m,
{
    if m < n {
        lemma_opaque_stays(fish, m, n - 1, x, y);
    }
}

/// The first fish opaque at a point decides what the tank shows there,
/// whatever the fish behind it show: fish of lower index are in front.
pub proof fn lemma_first_opaque_wins(tank: FishTank, i: int, x: int, y: int)
    requires
        0 <= i < tank.fish@.len(),
        tank.fish@[i].value_at(x, y) is Opaque,
        forall|j: int| 0 <= j < i ==> !(#[trigger] tank.fish@[j].value_at(x, y) is Opaque),
    ensures
        tank.value_at(x, y) == tank.fish@[i].value_at(x, y),
{
    let fish = tank.fish@;
    lemma_none_opaque(fish, i, x, y);
    assert(composite(fish, i + 1, x, y) == fish[i].value_at(x, y));
    lemma_opaque_stays(fish, i + 1, fish.len() as int, x, y);
}

/// The tank shows `OutOfRange` at a point exactly when every fish does:
/// a point that some box covers is never taken for untouched water.
pub proof fn lemma_out_of_range_iff_uncovered(tank: FishTank, x: int, y: int)
    ensures
        tank.value_at(x, y) is OutOfRange <==> forall|i: int|
            0 <= i < tank.fish@.len() ==> (#[trigger] tank.fish@[i].value_at(x, y)) is OutOfRange,
{
    lemma_prefix_out_of_range(tank.fish@, tank.fish@.len() as int, x, y);
}

/// The first `n` fish show `OutOfRange` together exactly when each does.
proof fn lemma_prefix_out_of_range(fish: Seq<Fish>, n: int, x: int, y: int)
    requires
        0 <= n <= fish.len(),
    ensures
        composite(fish, n, x, y) is OutOfRange <==> forall|i: int|
            0 <= i < n ==> (#[trigger] fish[i].value_at(x, y)) is OutOfRange,
    decreases n,
{
    if n > 0 {
        lemma_prefix_out_of_range(fish, n - 1, x, y);
    }
}

/// Where none of the first `n` fish is opaque, neither is their composite.
proof fn lemma_none_opaque(fish: Seq<Fish>, n: int, x: int, y: int)
    requires
        0 <= n <= fish.len(),
        forall|j: int| 0 <= j < n ==> !(#[trigger] fish[j].value_at(x, y) is Opaque),
    ensures
        !(composite(fish, n, x, y) is Opaque),
    decreases n,
{
    if n > 0 {
        lemma_none_opaque(fish, n - 1, x, y);
    }
}

/// Once the first `n` species cannot make a tank, no longer prefix can.
proof fn lemma_build_error_stays(data: Seq<u16>, n: int, m: int, screen: Size)
    requires
        0 <= n <= m,
        build_error(data, n, screen) is Some,
    ensures
        build_error(data, m, screen) == build_error(data, n, screen),
    decreases m - n,
{
    if n < m {
        lemma_build_error_stays(data, n, m - 1, screen);
    }
}

/// The box of species `n` of the atlas, grown by `PAD` on each side, is
/// smaller than the screen on both axes.
pub open spec fn box_fits(data: Seq<u16>, n: int, screen: Size) -> bool {
    &&& header_width(data, n) + 2 * PAD < screen.width
    &&& header_height(data, n) + 2 * PAD < screen.height
}

/// Why a tank of the first `n` species of `data` cannot be built on
/// `screen`, if it cannot: the first species that fails to decode or to fit.
pub open spec fn build_error(data: Seq<u16>, n: int, screen: Size) -> Option<TankError>
    decreases n,
{
    if n <= 0 {
        None
    } else if build_error(data, n - 1, screen) is Some {
        build_error(data, n - 1, screen)
    } else if decode_error(data, n - 1) is Some {
        Some(TankError::Decode(decode_error(data, n - 1)->Some_0))
    } else if !box_fits(data, n - 1, screen) {
        Some(TankError::ScreenTooSmall)
    } else {
        None
    }
}

/// `r` is what building a tank of the first `n` species of `data` on
/// `screen` gives: the first failure if there is one; else a tank with one
/// fish per species, each decoded from `data` and placed on the screen.
pub open spec fn built_from(data: Seq<u16>, n: int, screen: Size, r: Result<FishTank, TankError>) -> bool {
    &&& r is Err <==> build_error(data, n, screen) is Some
    &&& r is Err ==> Some(r->Err_0) == build_error(data, n, screen)
    &&& r is Ok ==> {
        let t = r->Ok_0;
        &&& t.wf()
        &&& t.size == screen
        &&& t.fish@.len() == n
        &&& forall|i: int|
            0 <= i < n ==> decodes_to(data, i, #[trigger] t.sprites@[i]) && t.fish@[i].placed(screen)
    }
}

/// Relies on byte_slice_cast's `as_slice_of::<u16>`: the same memory viewed
/// as 16-bit words, half as many as the bytes. It fails when the bytes are
/// odd in number or not aligned for `u16`, and never on no bytes.
#[verifier::external_body]
fn as_words<'a>(bytes: &'a [u8]) -> (r: Result<&'a [u16], byte_slice_cast::Error>)
    ensures
        r is Ok ==> r->Ok_0@.len() * 2 == bytes@.len(),
        bytes@.len() % 2 == 1 ==> r is Err,
        bytes@.len() == 0 ==> r is Ok,
{
    bytes.as_slice_of::<u16>()
}

/// The error type of byte_slice_cast's conversions.
#[verifier::external_type_specification]
#[verifier::external_body]
pub struct ExSliceCastError(byte_slice_cast::Error);

impl<'a> FishTank<'a> {
    /// Builds a tank of `num_fish` fish from an atlas held as bytes in the
    /// machine's byte order; see `from_words`.
    pub fn new(sprite_data: &'a [u8], num_fish: usize, screen_size: Size, seed: u64) -> (r: Result<
        FishTank<'a>,
        TankError,
    >)
        requires
            screen_size.width < i32::MAX,
            screen_size.height < i32::MAX,
        ensures
            sprite_data@.len() % 2 == 1 ==> r == Err::<FishTank, TankError>(TankError::NotWords),
            sprite_data@.len() == 0 ==> built_from(Seq::<u16>::empty(), num_fish as int, screen_size, r),
            r != Err::<FishTank, TankError>(TankError::NotWords) ==> exists|words: Seq<u16>|
                words.len() * 2 == sprite_data@.len() && built_from(
                    words,
                    num_fish as int,
                    screen_size,
                    r,
                ),
    {
        match as_words(sprite_data) {
            Ok(words) => {
                let r = Self::from_words(words, num_fish, screen_size, seed);
                assert(built_from(words@, num_fish as int, screen_size, r));
                assert(sprite_data@.len() == 0 ==> words@ =~= Seq::<u16>::empty());
                r
            },
            Err(_) => Err(TankError::NotWords),
        }
    }

    /// Builds a tank of `num_fish` fish on a screen of `screen_size`: fish
    /// `i` swims as species `i` of the atlas, respawned at a random edge and
    /// then moved to a random column, with a PCG generator seeded by `seed`.
    pub fn from_words(sprite_data: &'a [u16], num_fish: usize, screen_size: Size, seed: u64) -> (r:
        Result<FishTank<'a>, TankError>)
        requires
            screen_size.width < i32::MAX,
            screen_size.height < i32::MAX,
        ensures
            built_from(sprite_data@, num_fish as int, screen_size, r),
    {
        let mut rng = new_rng(seed, RNG_STREAM);
        let mut sprites: Vec<Sprite<'a>> = Vec::new();
        let mut fish: Vec<Fish<'a>> = Vec::new();
        let mut i: usize = 0;
        while i < num_fish
            invariant
                i <= num_fish,
                screen_size.width < i32::MAX,
                screen_size.height < i32::MAX,
                sprites@.len() == i,
                fish@.len() == i,
                build_error(sprite_data@, i as int, screen_size) is None,
                forall|j: int|
                    0 <= j < i ==> {
                        let f = #[trigger] fish@[j];
                        &&& decodes_to(sprite_data@, j, sprites@[j])
                        &&& f.wf()
                        &&& f.fits(screen_size)
                        &&& f.visible(screen_size)
                        &&& f.placed(screen_size)
                        &&& f.fish_type == sprites@[j]
                    },
            decreases num_fish - i,
        {
            let sprite = match Sprite::make_sprite(i, sprite_data) {
                Ok(s) => s,
                Err(e) => {
                    proof {
                        lemma_build_error_stays(sprite_data@, i + 1, num_fish as int, screen_size);
                    }
                    return Err(TankError::Decode(e));
                },
            };
            let mut f = Fish::new(sprite);
            if f.size.width >= screen_size.width || f.size.height >= screen_size.height {
                proof {
                    lemma_build_error_stays(sprite_data@, i + 1, num_fish as int, screen_size);
                }
                return Err(TankError::ScreenTooSmall);
            }
            f.randomize(&screen_size, &mut rng);
            f.randomize_x(&screen_size, &mut rng);
            sprites.push(sprite);
            fish.push(f);
            i = i + 1;
        }
        let tank = FishTank { sprites, fish, size: screen_size, rng };
        assert(tank.wf());
        assert forall|j: int| 0 <= j < num_fish implies decodes_to(sprite_data@, j, #[trigger] tank.sprites@[j])
            && tank.fish@[j].placed(screen_size) by {
            assert(fish@[j].placed(screen_size));
        }
        Ok(tank)
    }

    /// Fish `i` swims as species `i`, within reach of the screen.
    pub open spec fn wf(&self) -> bool {
        &&& self.sprites@.len() == self.fish@.len()
        &&& self.size.width < i32::MAX
        &&& self.size.height < i32::MAX
        &&& forall|i: int|
            0 <= i < self.fish@.len() ==> {
                let f = #[trigger] self.fish@[i];
                &&& f.wf()
                &&& f.fits(self.size)
                &&& f.visible(self.size)
                &&& f.fish_type == self.sprites@[i]
            }
    }

    /// What the tank shows at the screen point `(x, y)`.
    pub open spec fn value_at(&self, x: int, y: int) -> PointValue {
        composite(self.fish@, self.fish@.len() as int, x, y)
    }

    /// What the tank shows at a screen point: the colour of the first fish
    /// opaque there; else `Transparent` if the point lies in some fish's
    /// box; else `OutOfRange`.
    pub fn get_point(&self, pt: &Point) -> (r: PointValue)
        requires
            self.wf(),
        ensures
            r == self.value_at(pt.x as int, pt.y as int),
    {
        let ghost x = pt.x as int;
        let ghost y = pt.y as int;
        let mut ret = PointValue::OutOfRange;
        let mut i: usize = 0;
        while i < self.fish.len()
            invariant
                self.wf(),
                i <= self.fish@.len(),
                x == pt.x as int,
                y == pt.y as int,
                ret == composite(self.fish@, i as int, x, y),
                !(ret is Opaque),
            decreases self.fish@.len() - i,
        {
            let v = self.fish[i].get_point(pt);
            assert(composite(self.fish@, i + 1, x, y) == match v {
                PointValue::Opaque(c) => PointValue::Opaque(c),
                PointValue::Transparent => PointValue::Transparent,
                PointValue::OutOfRange => ret,
            });
            match v {
                PointValue::Opaque(c) => {
                    proof {
                        lemma_opaque_stays(self.fish@, i + 1, self.fish@.len() as int, x, y);
                    }
                    return PointValue::Opaque(c);
                },
                PointValue::Transparent => ret = PointValue::Transparent,
                PointValue::OutOfRange => (),
            }
            i = i + 1;
        }
        ret
    }

    /// Advances every fish by one tick, in order.
    pub fn swim(&mut self)
        requires
            old(self).wf(),
        ensures
            final(self).wf(),
            final(self).size == old(self).size,
            final(self).sprites == old(self).sprites,
            final(self).fish@.len() == old(self).fish@.len(),
            forall|i: int|
                0 <= i < old(self).fish@.len() ==> (#[trigger] final(self).fish@[i]).swum_from(
                    old(self).fish@[i],
                    old(self).size,
                ),
    {
        let mut i: usize = 0;
        while i < self.fish.len()
            invariant
                self.wf(),
                i <= self.fish@.len(),
                self.size == old(self).size,
                self.sprites == old(self).sprites,
                self.fish@.len() == old(self).fish@.len(),
                forall|j: int|
                    0 <= j < i ==> (#[trigger] self.fish@[j]).swum_from(
                        old(self).fish@[j],
                        old(self).size,
                    ),
                forall|j: int| i <= j < self.fish@.len() ==> self.fish@[j] == old(self).fish@[j],
            decreases self.fish@.len() - i,
        {
            let mut f = self.fish[i];
            f.swim(&self.size, &mut self.rng);
            self.fish.set(i, f);
            i = i + 1;
        }
    }
}

} // verus!
