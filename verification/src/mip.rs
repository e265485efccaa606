use vstd::prelude::*;
use vstd::arithmetic::power2::*;
use vstd::arithmetic::div_mod::lemma_div_denominator;
use crate::types::Offset3D;

verus! {

/// The largest `k` with `2^k <= n`, and 0 for `n == 0`.
pub open spec fn spec_floor_log2(n: nat) -> nat
    decreases n,
{
    if n <= 1 {
        0
    } else {
        1 + spec_floor_log2(n / 2)
    }
}

/// Number of levels of the mipmap pyramid over an image: one more than the
/// binary logarithm of the shorter side, rounded down. An image without
/// pixels has no level.
pub open spec fn spec_mip_levels(width: nat, height: nat) -> nat {
    let shorter = if width <= height { width } else { height };
    if shorter == 0 {
        0
    } else {
        spec_floor_log2(shorter) + 1
    }
}

/// The side of the next smaller level: half, rounded down, and never
/// under one pixel.
pub open spec fn spec_next_dimension(side: int) -> int {
    if side >= 2 {
        side / 2
    } else {
        1
    }
}

/// The side of level `level` under a base level of side `side`.
pub open spec fn spec_level_dimension(side: int, level: nat) -> int
    decreases level,
{
    if level == 0 {
        side
    } else {
        spec_next_dimension(spec_level_dimension(side, (level - 1) as nat))
    }
}

/// `spec_floor_log2` is the binary logarithm rounded down: `n` lies between
/// that power of two and the next.
pub proof fn lemma_floor_log2_bounds(n: nat)
    requires
        n >= 1,
    ensures
        pow2(spec_floor_log2(n)) <= n < pow2(spec_floor_log2(n) + 1),
    decreases n,
{
    reveal(pow2);
    lemma2_to64();
    if n <= 1 {
    } else {
        lemma_floor_log2_bounds(n / 2);
        let k = spec_floor_log2(n / 2);
        lemma_pow2_unfold(k + 1);
        lemma_pow2_unfold(k + 2);
    }
}

/// A number between two neighbouring powers of two has the smaller one's
/// exponent as its logarithm: the bounds pin the logarithm down.
pub proof fn lemma_floor_log2_unique(n: nat, k: nat)
    requires
        pow2(k) <= n < pow2(k + 1),
    ensures
        spec_floor_log2(n) == k,
    decreases k,
{
    lemma2_to64();
    if k == 0 {
        assert(pow2(1) == 2);
    } else {
        lemma_pow2_unfold(k);
        lemma_pow2_unfold(k + 1);
        lemma_pow2_pos((k - 1) as nat);
        lemma_floor_log2_unique(n / 2, (k - 1) as nat);
    }
}

/// No level of a pyramid has a side under one pixel, whatever the base.
pub proof fn lemma_level_dimension_positive(side: int, level: nat)
    requires
        level >= 1 || side >= 1,
    ensures
        spec_level_dimension(side, level) >= 1,
    decreases level,
{
    if level >= 2 {
        lemma_level_dimension_positive(side, (level - 1) as nat);
    }
}

/// Halving `level` times divides by two to the `level`, as long as the
/// result has not reached one pixel.
pub proof fn lemma_level_dimension_of_log2(side: nat, level: nat)
    requires
        side >= 1,
        level <= spec_floor_log2(side),
    ensures
        spec_floor_log2(spec_level_dimension(side as int, level) as nat) + level
            == spec_floor_log2(side),
        spec_level_dimension(side as int, level) >= 1,
    decreases level,
{
    if level > 0 {
        lemma_level_dimension_of_log2(side, (level - 1) as nat);
        let before = spec_level_dimension(side as int, (level - 1) as nat);
        assert(spec_floor_log2(before as nat) >= 1);
        assert(before >= 2);
    }
}

/// A side shifted right by `level` bits, and never under one pixel.
pub open spec fn spec_shifted_side(side: int, level: nat) -> int {
    let shifted = side / (pow2(level) as int);
    if shifted >= 1 {
        shifted
    } else {
        1
    }
}

/// Halving level by level is shifting: level `level` of a pyramid has
/// the side of its base shifted right by `level` bits, held at one pixel.
pub proof fn lemma_level_dimension_is_shift(side: int, level: nat)
    requires
        side >= 1,
    ensures
        spec_level_dimension(side, level) == spec_shifted_side(side, level),
        spec_level_dimension(side, level) >= 1,
    decreases level,
{
    lemma_pow2_pos(level);
    lemma2_to64();
    if level > 0 {
        let before = (level - 1) as nat;
        lemma_level_dimension_is_shift(side, before);
        lemma_pow2_pos(before);
        lemma_pow2_unfold(level);
        let divisor = pow2(before) as int;
        lemma_div_denominator(side, divisor, 2);
        assert(divisor * 2 == pow2(level) as int);
        assert((side / divisor) / 2 == side / (pow2(level) as int));
    }
}

/// The pyramid ends exactly where its shorter side reaches one pixel: the
/// last level that `spec_mip_levels` counts has a shorter side of one, and
/// every level before it a shorter side of two or more.
pub proof fn lemma_pyramid_ends_at_one(width: nat, height: nat, level: nat)
    requires
        width >= 1,
        height >= 1,
        level < spec_mip_levels(width, height),
    ensures
        ({
            let shorter = if width <= height { width } else { height };
            let side = spec_level_dimension(shorter as int, level);
            &&& level + 1 == spec_mip_levels(width, height) ==> side == 1
            &&& level + 1 < spec_mip_levels(width, height) ==> side >= 2
        }),
{
    let shorter = if width <= height { width } else { height };
    lemma_level_dimension_of_log2(shorter, level);
    let side = spec_level_dimension(shorter as int, level);
    if level + 1 == spec_mip_levels(width, height) {
        assert(spec_floor_log2(side as nat) == 0);
        if side >= 2 {
            assert(spec_floor_log2(side as nat) == 1 + spec_floor_log2((side / 2) as nat));
        }
    } else {
        assert(spec_floor_log2(side as nat) >= 1);
    }
}

/// Number of mipmap levels of a `width` by `height` image.
pub fn calculate_mip_levels(width: u32, height: u32) -> (levels: u32)
    ensures
        levels == spec_mip_levels(width as nat, height as nat),
        levels <= 32,
        width >= 1 && height >= 1 ==> {
            let shorter = if width <= height { width } else { height };
            pow2((levels - 1) as nat) <= shorter < pow2(levels as nat)
        },
{
    let shorter: u32 = if width <= height { width } else { height };
    if shorter == 0 {
        return 0;
    }
    let mut rest: u32 = shorter;
    let mut levels: u32 = 1;
    proof {
        lemma2_to64();
        assert((levels - 1) as nat == 0);
        assert(rest as nat * pow2(0) == rest as nat);
    }
    while rest > 1
        invariant
            rest >= 1,
            1 <= levels <= 32,
            rest as nat * pow2((levels - 1) as nat) <= shorter,
            spec_floor_log2(rest as nat) + levels == spec_floor_log2(shorter as nat) + 1,
        decreases rest,
    {
        proof {
            lemma_pow2_unfold(levels as nat);
            lemma2_to64();
            assert((rest / 2) as nat * (2 * pow2((levels - 1) as nat)) <= rest as nat * pow2(
                (levels - 1) as nat,
            )) by (nonlinear_arith)
                requires
                    rest >= 0,
                    pow2((levels - 1) as nat) >= 0,
            ;
            if levels == 32 {
                assert(pow2(31) == 0x8000_0000);
                assert(rest as nat * pow2(31) >= 2 * pow2(31)) by (nonlinear_arith)
                    requires
                        rest >= 2,
                        pow2(31) > 0,
                ;
            }
        }
        rest = rest / 2;
        levels = levels + 1;
    }
    proof {
        lemma_floor_log2_bounds(shorter as nat);
    }
    levels
}

/// The extents that one blit of mipmap generation reads and writes: a
/// level and the next smaller one.
#[derive(Debug, Clone, Copy, PartialEq, Eq, Structural)]
pub struct MipmapBlitDimensions {
    pub width: i32,
    pub height: i32,
    pub next_width: i32,
    pub next_height: i32,
}

fn next_dimension(side: i32) -> (next: i32)
    ensures
        next == spec_next_dimension(side as int),
        next >= 1,
{
    if side >= 2 {
        side / 2
    } else {
        1
    }
}

impl MipmapBlitDimensions {
    /// What a value is made of by `new`: the next level is half the size,
    /// and at least one pixel wide and high.
    pub open spec fn spec_well_formed(self) -> bool {
        &&& self.next_width == spec_next_dimension(self.width as int)
        &&& self.next_height == spec_next_dimension(self.height as int)
    }

    pub fn new(width: i32, height: i32) -> (dimensions: Self)
        ensures
            dimensions.width == width,
            dimensions.height == height,
            dimensions.spec_well_formed(),
            dimensions.next_width >= 1,
            dimensions.next_height >= 1,
    {
        Self {
            width,
            height,
            next_width: next_dimension(width),
            next_height: next_dimension(height),
        }
    }

    /// The two corners of the region that the blit reads: the whole level.
    pub fn src_offsets(&self) -> (corners: [Offset3D; 2])
        ensures
            corners[0] == (Offset3D { x: 0, y: 0, z: 0 }),
            corners[1] == (Offset3D { x: self.width, y: self.height, z: 1 }),
    {
        [Offset3D { x: 0, y: 0, z: 0 }, Offset3D { x: self.width, y: self.height, z: 1 }]
    }

    /// The two corners of the region that the blit writes: the whole next
    /// level.
    pub fn dst_offsets(&self) -> (corners: [Offset3D; 2])
        ensures
            corners[0] == (Offset3D { x: 0, y: 0, z: 0 }),
            corners[1] == (Offset3D { x: self.next_width, y: self.next_height, z: 1 }),
    {
        [
            Offset3D { x: 0, y: 0, z: 0 },
            Offset3D { x: self.next_width, y: self.next_height, z: 1 },
        ]
    }
}

} // verus!
