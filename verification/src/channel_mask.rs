//! Channel masks of texture accesses, and the packing of masked pixels.
use vstd::prelude::*;

verus! {

broadcast use vstd::array::axiom_spec_array_update;

/// A channel that is present.
#[derive(Clone, Copy, Debug, Default, PartialEq, Eq, Structural)]
pub struct Y;

/// A channel that is masked off.
#[derive(Clone, Copy, Debug, Default, PartialEq, Eq, Structural)]
pub struct N;

/// One channel's bit in a mask: 1 for a present channel, 0 for a masked one.
pub trait Bit {
    /// The channel's bit.
    spec fn bit_value() -> u32;

    /// The channel's bit.
    fn bit() -> (r: u32)
        ensures r == Self::bit_value(), r <= 1;

    /// Whether the channel is present.
    fn test() -> (r: bool)
        ensures r == (Self::bit_value() != 0),
    {
        Self::bit() != 0
    }
}

impl Bit for Y {
    open spec fn bit_value() -> u32 { 1 }
    fn bit() -> (r: u32) { 1 }
}

impl Bit for N {
    open spec fn bit_value() -> u32 { 0 }
    fn bit() -> (r: u32) { 0 }
}

/// A mask over the four channels (red, green, blue, alpha) of a pixel.
#[derive(Clone, Copy, Debug, Default, PartialEq, Eq)]
pub struct Mask<R, G, B, A>(pub R, pub G, pub B, pub A);

/// The hardware mask of a channel mask: bit 0 for red up to bit 3 for alpha.
pub trait MaskDetail {
    /// The mask's bits.
    spec fn mask_value() -> u32;

    /// The mask's bits.
    fn mask() -> (r: u32)
        ensures r == Self::mask_value(), r < 16;
}

impl<R: Bit, G: Bit, B: Bit, A: Bit> MaskDetail for Mask<R, G, B, A> {
    open spec fn mask_value() -> u32 {
        (R::bit_value() + 2 * G::bit_value() + 4 * B::bit_value() + 8 * A::bit_value()) as u32
    }

    fn mask() -> (r: u32) {
        let r = R::bit();
        let g = G::bit();
        let b = B::bit();
        let a = A::bit();
        assert(((r << 0u32) | (g << 1u32) | (b << 2u32) | (a << 3u32)) == r + 2 * g + 4 * b + 8 * a)
            by (bit_vector)
            requires r <= 1, g <= 1, b <= 1, a <= 1;
        (r << 0) | (g << 1) | (b << 2) | (a << 3)
    }
}

/// Masks that keep exactly one channel.
pub trait SingleBitMask: MaskDetail {}

impl SingleBitMask for Mask<Y, N, N, N> {}
impl SingleBitMask for Mask<N, Y, N, N> {}
impl SingleBitMask for Mask<N, N, Y, N> {}
impl SingleBitMask for Mask<N, N, N, Y> {}

/// Whether channel `c` is kept by `mask`.
pub open spec fn keeps(mask: u32, c: int) -> bool {
    mask & (1u32 << (c as u32)) != 0
}

/// The number of channels below `c` kept by `mask`.
pub open spec fn rank(mask: u32, c: int) -> int
    decreases c,
{
    if c <= 0 {
        0
    } else {
        rank(mask, c - 1) + if keeps(mask, c - 1) { 1int } else { 0int }
    }
}

proof fn lemma_rank_bounds(mask: u32, c: int)
    requires 0 <= c,
    ensures 0 <= rank(mask, c) <= c,
    decreases c,
{
    if c > 0 {
        lemma_rank_bounds(mask, c - 1);
    }
}

proof fn lemma_rank_mono(mask: u32, a: int, b: int)
    requires 0 <= a <= b,
    ensures rank(mask, a) <= rank(mask, b),
        keeps(mask, a) && a < b ==> rank(mask, a) < rank(mask, b),
    decreases b - a,
{
    if a < b {
        lemma_rank_mono(mask, a, b - 1);
        if keeps(mask, a) && a < b - 1 {
            lemma_rank_mono(mask, a + 1, b - 1);
        }
    }
}

/// The pixel `src` (packed, kept channels first) spread back over the channels
/// of `mask`; masked channels read `zero`.
pub open spec fn unshifted<T>(mask: u32, src: Seq<T>, zero: T) -> Seq<T> {
    Seq::new(4, |c: int| if keeps(mask, c) { src[rank(mask, c)] } else { zero })
}

/// Law: spreading a packed pixel undoes packing it — every kept channel comes
/// back in its place, and every masked channel reads `zero`.
pub proof fn law_unshift_undoes_shift<T>(mask: u32, x: Seq<T>, packed: Seq<T>, zero: T)
    requires
        x.len() == 4,
        forall|c: int| 0 <= c < 4 && keeps(mask, c) ==> #[trigger] packed[rank(mask, c)] == x[c],
    ensures
        forall|c: int| 0 <= c < 4 ==> #[trigger] unshifted(mask, packed, zero)[c]
            == if keeps(mask, c) { x[c] } else { zero },
{
}

/// Spread the channels a masked hardware load returns packed (the kept channels, in
/// order, at the front) back to their places; masked channels read `zero`.
pub fn unshift<T: Copy>(mask: u32, src: [T; 4], zero: T) -> (dst: [T; 4])
    ensures
        forall|c: int| 0 <= c < 4 ==> #[trigger] dst[c] == if keeps(mask, c) { src[rank(mask, c)] } else { zero },
        dst@ == unshifted(mask, src@, zero),
{
    let mut dst: [T; 4] = [zero; 4];
    let mut src_i: u8 = 0;
    let mut dst_i: u8 = 0;
    while dst_i < 4
        invariant
            dst_i <= 4,
            src_i == rank(mask, dst_i as int),
            forall|c: int| 0 <= c < dst_i ==> #[trigger] dst[c] == if keeps(mask, c) { src[rank(mask, c)] } else { zero },
            forall|c: int| dst_i <= c < 4 ==> #[trigger] dst[c] == zero,
        decreases 4 - dst_i,
    {
        proof { lemma_rank_bounds(mask, dst_i as int); }
        let bit = 1u32 << (dst_i as u32);
        if mask & bit != 0 {
            dst[dst_i as usize] = src[src_i as usize];
            src_i = src_i + 1;
        }
        dst_i = dst_i + 1;
    }
    assert(dst@ =~= unshifted(mask, src@, zero));
    dst
}

/// Pack the kept channels of a pixel to the front, in order, for a masked hardware
/// store; the remaining places hold `zero`.
pub fn shift<T: Copy>(mask: u32, src: [T; 4], zero: T) -> (dst: [T; 4])
    ensures
        forall|c: int| 0 <= c < 4 && keeps(mask, c) ==> #[trigger] dst[rank(mask, c)] == src[c],
        forall|j: int| rank(mask, 4) <= j < 4 ==> #[trigger] dst[j] == zero,
{
    let mut dst: [T; 4] = [zero; 4];
    let mut dst_i: u8 = 0;
    let mut src_i: u8 = 0;
    while src_i < 4
        invariant
            src_i <= 4,
            dst_i == rank(mask, src_i as int),
            forall|c: int| 0 <= c < src_i && keeps(mask, c) ==> #[trigger] dst[rank(mask, c)] == src[c],
            forall|j: int| dst_i <= j < 4 ==> #[trigger] dst[j] == zero,
        decreases 4 - src_i,
    {
        proof { lemma_rank_bounds(mask, src_i as int); }
        let bit = 1u32 << (src_i as u32);
        if mask & bit != 0 {
            proof {
                assert forall|c: int| 0 <= c < src_i && keeps(mask, c) implies rank(mask, c) < dst_i by {
                    lemma_rank_mono(mask, c, src_i as int);
                }
            }
            let ghost before = dst;
            dst[dst_i as usize] = src[src_i as usize];
            proof {
                assert forall|c: int| 0 <= c < src_i + 1 && keeps(mask, c) implies #[trigger] dst[rank(mask, c)] == src[c] by {
                    if c < src_i {
                        lemma_rank_mono(mask, c, src_i as int);
                        lemma_rank_bounds(mask, c);
                        assert(rank(mask, c) < dst_i);
                        assert(dst@ == before@.update(dst_i as int, src@[src_i as int]));
                        assert(dst[rank(mask, c)] == before[rank(mask, c)]);
                    }
                }
            }
            dst_i = dst_i + 1;
        }
        src_i = src_i + 1;
    }
    dst
}

} // verus!
