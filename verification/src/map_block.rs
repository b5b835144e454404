//! Block-authoring helper: the one-in/one-out "map" pattern.
//!
//! A block whose whole behaviour is a per-sample function implements
//! [`MapOne`]; [`map_work`] is then its `work` body: it drains the
//! input, writes the mapped samples to the output and consumes what it
//! processed, so the block author writes no stream handling at all.

use vstd::assert_seqs_equal;
use vstd::prelude::*;

use crate::stream::Stream;

verus! {

/// The per-sample hook of a map block: from the block state and one
/// input sample to the next state and the output sample.  With `O`
/// equal to `I` this is the plain map pattern; with a different `O`
/// it is the converting map pattern.
pub trait MapOne<I, O>: Sized {
    /// What one step does, as a mathematical function.
    spec fn step(pre: Self, x: I) -> (Self, O);

    /// Process one sample, advancing the block state.
    fn process_one(&mut self, x: &I) -> (y: O)
        ensures
            (*final(self), y) == Self::step(*old(self), *x),
    ;
}

/// The state and outputs after mapping a whole sequence through the
/// hook, one sample at a time, oldest first.
pub open spec fn map_seq<I, O, M: MapOne<I, O>>(m: M, xs: Seq<I>) -> (M, Seq<O>)
    decreases xs.len(),
{
    if xs.len() == 0 {
        (m, Seq::empty())
    } else {
        let first = M::step(m, xs[0]);
        let rest = map_seq(first.0, xs.skip(1));
        (rest.0, seq![first.1] + rest.1)
    }
}

/// A map block emits exactly one output sample per input sample.
pub proof fn lemma_map_seq_len<I, O, M: MapOne<I, O>>(m: M, xs: Seq<I>)
    ensures
        map_seq(m, xs).1.len() == xs.len(),
    decreases xs.len(),
{
    if xs.len() != 0 {
        lemma_map_seq_len(M::step(m, xs[0]).0, xs.skip(1));
    }
}

/// Mapping a sequence extended by one sample maps the prefix first and
/// then steps once on the new sample.
pub proof fn lemma_map_seq_push<I, O, M: MapOne<I, O>>(m: M, xs: Seq<I>, x: I)
    ensures
        ({
            let pre = map_seq(m, xs);
            let last = M::step(pre.0, x);
            map_seq(m, xs.push(x)) == (last.0, pre.1.push(last.1))
        }),
    decreases xs.len(),
{
    let pre = map_seq(m, xs);
    let last = M::step(pre.0, x);
    if xs.len() == 0 {
        assert(xs.push(x)[0] == x);
        assert(xs.push(x).skip(1) =~= Seq::<I>::empty());
        assert(map_seq(m, xs.push(x))
            == (last.0, seq![last.1] + map_seq(last.0, Seq::<I>::empty()).1));
        assert(seq![last.1] + Seq::<O>::empty() =~= pre.1.push(last.1));
    } else {
        assert(xs.push(x)[0] == xs[0]);
        assert(xs.push(x).skip(1) =~= xs.skip(1).push(x));
        let first = M::step(m, xs[0]);
        lemma_map_seq_push(first.0, xs.skip(1), x);
        let tailpre = map_seq(first.0, xs.skip(1));
        let taillast = M::step(tailpre.0, x);
        assert(seq![first.1] + tailpre.1.push(taillast.1)
            =~= (seq![first.1] + tailpre.1).push(taillast.1));
    }
}

/// Mapping a concatenation maps the first part and continues from its
/// final state through the second: the map pattern is compositional.
pub proof fn lemma_map_seq_append<I, O, M: MapOne<I, O>>(m: M, a: Seq<I>, b: Seq<I>)
    ensures
        ({
            let first = map_seq(m, a);
            let second = map_seq(first.0, b);
            map_seq(m, a + b) == (second.0, first.1 + second.1)
        }),
    decreases b.len(),
{
    let first = map_seq(m, a);
    if b.len() == 0 {
        assert(a + b =~= a);
        assert(first.1 + map_seq(first.0, b).1 =~= first.1);
    } else {
        let b0 = b.drop_last();
        lemma_map_seq_append(m, a, b0);
        lemma_map_seq_push(m, a + b0, b.last());
        lemma_map_seq_push(first.0, b0, b.last());
        assert((a + b0).push(b.last()) =~= a + b);
        assert(b0.push(b.last()) =~= b);
        let firstb0 = map_seq(first.0, b0);
        assert((first.1 + firstb0.1).push(M::step(firstb0.0, b.last()).1)
            =~= first.1 + firstb0.1.push(M::step(firstb0.0, b.last()).1));
    }
}

/// The generated `work` of a map block: map as many input samples as
/// the output has room for, append the results to the output, and
/// consume exactly what was processed.
pub fn map_work<I: Copy, O: Copy, M: MapOne<I, O>>(
    m: &mut M,
    src: &mut Stream<I>,
    dst: &mut Stream<O>,
) -> (n: usize)
    ensures
        n == if old(src).readable().len() <= old(dst).spec_free() {
            old(src).readable().len() as int
        } else {
            old(dst).spec_free()
        },
        ({
            let mapped = map_seq(*old(m), old(src).readable().take(n as int));
            &&& *final(m) == mapped.0
            &&& final(dst).readable() == old(dst).readable() + mapped.1
        }),
        final(src).readable() == old(src).readable().skip(n as int),
        final(src).spec_capacity() == old(src).spec_capacity(),
        final(dst).spec_capacity() == old(dst).spec_capacity(),
        final(src).spec_free() == old(src).spec_free() + n,
        final(dst).spec_free() == old(dst).spec_free() - n,
{
    let avail = src.len();
    let room = dst.free();
    let n = if avail <= room {
        avail
    } else {
        room
    };
    let mut k: usize = 0;
    proof {
        let mapped0 = map_seq(*old(m), old(src).readable().take(0));
        assert(old(src).readable().take(0) =~= Seq::<I>::empty());
        assert(old(dst).readable() + mapped0.1 =~= old(dst).readable());
    }
    while k < n
        invariant
            k <= n,
            n <= src.readable().len(),
            n as int - k <= dst.spec_free(),
            src == old(src),
            dst.spec_capacity() == old(dst).spec_capacity(),
            dst.spec_free() == old(dst).spec_free() - k,
            ({
                let mapped = map_seq(*old(m), old(src).readable().take(k as int));
                &&& *m == mapped.0
                &&& dst.readable() == old(dst).readable() + mapped.1
            }),
        decreases n - k,
    {
        let buf = src.read_buf();
        let x = *vstd::slice::slice_index_get(buf, k);
        let y = m.process_one(&x);
        dst.push(y);
        proof {
            lemma_map_seq_push(
                *old(m),
                old(src).readable().take(k as int),
                old(src).readable()[k as int],
            );
            assert(old(src).readable().take(k as int).push(
                old(src).readable()[k as int]) =~= old(src).readable().take(k + 1));
            let mapped = map_seq(*old(m), old(src).readable().take(k + 1));
            assert_seqs_equal!(dst.readable(), old(dst).readable() + mapped.1);
        }
        k += 1;
    }
    src.consume(n);
    n
}

/// A map block that adds a constant to every sample, wrapping on
/// overflow: the simplest stateless example of the map pattern.
pub struct AddConst {
    /// The constant added to every sample.
    pub k: u32,
}

impl AddConst {
    /// A map block adding `k` to every sample.
    pub fn new(k: u32) -> (b: AddConst)
        ensures
            b.k == k,
    {
        AddConst { k }
    }
}

impl MapOne<u32, u32> for AddConst {
    open spec fn step(pre: AddConst, x: u32) -> (AddConst, u32) {
        (pre, ((x + pre.k) % 0x1_0000_0000) as u32)
    }

    fn process_one(&mut self, x: &u32) -> (y: u32) {
        (*x).wrapping_add(self.k)
    }
}

} // verus!
