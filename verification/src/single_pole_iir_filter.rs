//! Infinite Impulse Response (IIR) filter with a single pole.
//!
//! The filter coefficient is handled as the bit pattern of an IEEE-754
//! single-precision number, so that the range check on the coefficient
//! is exact integer logic: for non-negative singles the bit patterns
//! order exactly as the values do, `0x3F80_0000` is `1.0`, and
//! `0x8000_0000` is negative zero, which also lies in `[0, 1]`.  The
//! per-sample arithmetic itself is the sample type's own business,
//! supplied through [`IirSample`].

use vstd::prelude::*;

use crate::block::{Block, BlockRet};
use crate::stream::{InputStreams, OutputStreams, Sample};
use crate::Error;

verus! {

/// Whether `bits` is the IEEE-754 single bit pattern of a filter
/// coefficient in `[0, 1]`: at most the pattern of `1.0`, or negative
/// zero.
pub open spec fn alpha_bits_ok(bits: u32) -> bool {
    bits <= 0x3F80_0000 || bits == 0x8000_0000
}

/// The per-sample arithmetic of the single-pole IIR filter:
/// `iir_combine` returns `alpha * x + (1 - alpha) * prev` in the
/// sample type's own arithmetic, with the coefficient given as
/// IEEE-754 single bits.  Sample types are supplied by the block
/// author; the filter is generic over them.
pub trait IirSample: Copy {
    /// One filter step: combine the new sample with the previous
    /// output.
    fn iir_combine(alpha_bits: u32, prev: Self, x: Self) -> Self;
}

/// An accepted coefficient's value as a binary fraction of `2^32`,
/// truncated: a normal IEEE-754 single decodes to
/// `(2^23 + mantissa) * 2^(exponent - 150)`.  Bit patterns outside
/// `[0, 1]` clamp to the nearest end, so every input yields a usable
/// weight; the filter itself only supplies validated coefficients.
fn alpha_q32(bits: u32) -> (w: u64)
    ensures
        w <= 0x1_0000_0000u64,
{
    if bits >= 0x8000_0000 {
        // Sign bit set: negative coefficients clamp to zero.
        return 0;
    }
    let e: u32 = bits >> 23;
    let m: u64 = (bits & 0x007F_FFFF) as u64;
    proof {
        assert(bits & 0x007F_FFFF <= 0x007F_FFFF) by (bit_vector);
    }
    if e >= 127 {
        // One, and anything above clamps to one.
        0x1_0000_0000u64
    } else if e >= 118 {
        let sh: u64 = (e - 118) as u64;
        let b: u64 = 0x0080_0000u64 | m;
        proof {
            assert((0x0080_0000u64 | m) << sh <= 0x1_0000_0000u64) by (bit_vector)
                requires
                    sh <= 8u64,
                    m <= 0x007F_FFFFu64,
            ;
        }
        b << sh
    } else if e >= 95 {
        let sh: u64 = (118 - e) as u64;
        let b: u64 = 0x0080_0000u64 | m;
        proof {
            assert((0x0080_0000u64 | m) >> sh <= 0x1_0000_0000u64) by (bit_vector)
                requires
                    sh <= 23u64,
                    m <= 0x007F_FFFFu64,
            ;
        }
        b >> sh
    } else {
        // Smaller than 2^-24, subnormals included: truncates to zero.
        0
    }
}

/// Exact fixed-point arithmetic for whole-number samples: the
/// coefficient becomes a binary fraction of `2^32` and the weighted
/// sum is truncated back to the integer.  With a coefficient of one
/// the filter passes samples through unchanged.
impl IirSample for u32 {
    fn iir_combine(alpha_bits: u32, prev: u32, x: u32) -> u32 {
        let w = alpha_q32(alpha_bits);
        let x64 = x as u64;
        let p64 = prev as u64;
        let wneg = 0x1_0000_0000u64 - w;
        proof {
            assert(x64 * w + p64 * wneg <= 0xFFFF_FFFF_0000_0000u64)
                by (nonlinear_arith)
                requires
                    x64 <= 0xFFFF_FFFFu64,
                    p64 <= 0xFFFF_FFFFu64,
                    w <= 0x1_0000_0000u64,
                    wneg == 0x1_0000_0000u64 - w,
            ;
            assert(x64 * w <= 0xFFFF_FFFF_0000_0000u64) by (nonlinear_arith)
                requires
                    x64 <= 0xFFFF_FFFFu64,
                    w <= 0x1_0000_0000u64,
            ;
            assert(p64 * wneg <= 0xFFFF_FFFF_0000_0000u64) by (nonlinear_arith)
                requires
                    p64 <= 0xFFFF_FFFFu64,
                    wneg <= 0x1_0000_0000u64,
            ;
        }
        (((x64 * w) + (p64 * wneg)) >> 32) as u32
    }
}

/// The filter core: coefficient and previous output.
pub struct SinglePoleIIR<Tout> {
    alpha_bits: u32,
    prev_output: Tout,
}

impl<Tout> SinglePoleIIR<Tout> {
    /// The coefficient, as IEEE-754 single bits.
    pub closed spec fn alpha_spec(self) -> u32 {
        self.alpha_bits
    }

    /// The previous output sample: the filter state.
    pub closed spec fn prev_spec(self) -> Tout {
        self.prev_output
    }
}

impl<Tout: IirSample + Default> SinglePoleIIR<Tout> {
    /// A filter with the given coefficient and a default-valued
    /// state: the filter history starts at the sample default.
    /// Accepts exactly the coefficients in `[0, 1]`.
    pub fn new(alpha_bits: u32) -> (r: Option<SinglePoleIIR<Tout>>)
        ensures
            alpha_bits_ok(alpha_bits) <==> r is Some,
            r matches Some(f) ==> f.alpha_spec() == alpha_bits,
            r matches Some(f) ==> call_ensures(Tout::default, (), f.prev_spec()),
    {
        let mut f = SinglePoleIIR { alpha_bits: 0u32, prev_output: Tout::default() };
        match f.set_taps(alpha_bits) {
            Some(()) => Some(f),
            None => None,
        }
    }

    /// Replace the coefficient, keeping the filter state.  Accepts
    /// exactly the coefficients in `[0, 1]`; on rejection the filter
    /// is unchanged.
    pub fn set_taps(&mut self, alpha_bits: u32) -> (r: Option<()>)
        ensures
            alpha_bits_ok(alpha_bits) <==> r is Some,
            r is Some ==> final(self).alpha_spec() == alpha_bits
                && final(self).prev_spec() == old(self).prev_spec(),
            r is None ==> *final(self) == *old(self),
    {
        if alpha_bits <= 0x3F80_0000 || alpha_bits == 0x8000_0000 {
            self.alpha_bits = alpha_bits;
            Some(())
        } else {
            None
        }
    }

    /// Filter one sample: the output becomes the new filter state.
    pub fn filter(&mut self, sample: Tout) -> (y: Tout)
        ensures
            final(self).alpha_spec() == old(self).alpha_spec(),
            final(self).prev_spec() == y,
    {
        let y = Tout::iir_combine(self.alpha_bits, self.prev_output, sample);
        self.prev_output = y;
        y
    }
}

/// A one-in/one-out block applying a single-pole IIR filter to every
/// sample of its stream.
pub struct SinglePoleIIRFilter<T> {
    iir: SinglePoleIIR<T>,
}

impl<T> SinglePoleIIRFilter<T> {
    /// The coefficient, as IEEE-754 single bits.
    pub closed spec fn alpha_spec(self) -> u32 {
        self.iir.alpha_spec()
    }

    /// The previous output sample: the filter state.
    pub closed spec fn prev_spec(self) -> T {
        self.iir.prev_spec()
    }
}

impl<T: IirSample + Default> SinglePoleIIRFilter<T> {
    /// Create a new IIR filter block, its history starting at the
    /// sample default.  Accepts exactly the coefficients in `[0, 1]`,
    /// as the core filter does.
    pub fn new(alpha_bits: u32) -> (r: Option<SinglePoleIIRFilter<T>>)
        ensures
            alpha_bits_ok(alpha_bits) <==> r is Some,
            r matches Some(b) ==> b.alpha_spec() == alpha_bits,
            r matches Some(b) ==> call_ensures(T::default, (), b.prev_spec()),
    {
        match SinglePoleIIR::<T>::new(alpha_bits) {
            Some(iir) => Some(SinglePoleIIRFilter { iir }),
            None => None,
        }
    }

    /// Filter one sample; the block keeps the output as its state.
    pub fn process_one(&mut self, a: &T) -> (y: T)
        ensures
            final(self).alpha_spec() == old(self).alpha_spec(),
            final(self).prev_spec() == y,
    {
        self.iir.filter(*a)
    }
}

impl<T: IirSample + Default + Sample> Block for SinglePoleIIRFilter<T> {
    fn block_name(&self) -> &'static str {
        "SinglePoleIIRFilter"
    }

    /// Filter as many input samples as the output has room for,
    /// consuming exactly what was processed.  Succeeds, with
    /// "schedule me again", exactly when the wiring carries a first
    /// input and a first output stream of the matching tag.
    fn work(&mut self, r: &mut InputStreams, w: &mut OutputStreams) -> (ret: Result<
        BlockRet,
        Error,
    >)
        ensures
            ret is Ok <==> (old(r)@.len() >= 1 && old(w)@.len() >= 1
                && old(r)@[0].tag_spec() == T::tag_of()
                && old(w)@[0].tag_spec() == T::tag_of()),
            ret is Ok ==> (ret matches Ok(BlockRet::Again)),
            ret is Err ==> *final(self) == *old(self),
            ret is Ok ==> ((T::stream_of(old(r)@[0]) matches Some(s0)
                && T::stream_of(old(w)@[0]) matches Some(d0) && {
                let n = vstd::math::min(s0.readable().len() as int, d0.spec_free());
                &&& (T::stream_of(final(r)@[0]) matches Some(s1)
                    && s1.readable() == s0.readable().skip(n))
                &&& (T::stream_of(final(w)@[0]) matches Some(d1)
                    && d1.readable().len() == d0.readable().len() + n)
                &&& final(self).alpha_spec() == old(self).alpha_spec()
            })),
    {
        if r.len() < 1 {
            return Err(Error::new("SinglePoleIIRFilter needs one input stream"));
        }
        if w.len() < 1 {
            return Err(Error::new("SinglePoleIIRFilter needs one output stream"));
        }
        if r.get_tag(0) != T::tag_of_exec() || w.get_tag(0) != T::tag_of_exec() {
            return Err(
                Error::new("SinglePoleIIRFilter wired to streams of the wrong type"),
            );
        }
        proof {
            T::lemma_tag_stream(r@[0]);
            T::lemma_tag_stream(w@[0]);
        }
        let src = crate::block::get_input::<T>(r, 0);
        let dst = crate::block::get_output::<T>(w, 0);
        let ghost s0 = *src;
        let ghost d0 = *dst;
        let avail = src.len();
        let room = dst.free();
        let n = if avail <= room {
            avail
        } else {
            room
        };
        let mut k: usize = 0;
        while k < n
            invariant
                k <= n,
                *src == s0,
                n <= s0.readable().len(),
                n == vstd::math::min(s0.readable().len() as int, d0.spec_free()),
                dst.readable().len() == d0.readable().len() + k,
                dst.spec_free() == d0.spec_free() - k,
                self.alpha_spec() == old(self).alpha_spec(),
            decreases n - k,
        {
            let buf = src.read_buf();
            let x = *vstd::slice::slice_index_get(buf, k);
            let y = self.iir.filter(x);
            dst.push(y);
            k += 1;
        }
        src.consume(n);
        proof {
            T::lemma_wrap_stream(*src);
            T::lemma_wrap_stream(*dst);
        }
        Ok(BlockRet::Again)
    }
}

} // verus!
