//! The dot-folding encoder.
//!
//! A `'.'` on the display does not deserve a digit of its own: its glyph is a
//! single segment that any character's mask has room for.  The encoder
//! therefore walks a stream of segment masks and, after each item, counts
//! the run of dot masks that follows.  An odd run folds one dot into the
//! item just emitted; every remaining pair of dots collapses into one
//! standalone dot glyph.  A dot with no preceding character (at the start of
//! the stream, or following other dots) can never fold and stands alone.

use crate::fonts;
use crate::fonts::mask::PERIOD;
use vstd::prelude::*;

verus! {

/// Length of the prefix of `s` that consists of `mask` alone.
pub open spec fn run_len(s: Seq<u16>, mask: u16) -> nat
    decreases s.len(),
{
    if s.len() == 0 || s[0] != mask {
        0
    } else {
        1 + run_len(s.skip(1), mask)
    }
}

/// A run is never longer than the sequence it starts.
pub proof fn lemma_run_len_le(s: Seq<u16>, mask: u16)
    ensures
        run_len(s, mask) <= s.len(),
    decreases s.len(),
{
    if s.len() != 0 && s[0] == mask {
        lemma_run_len_le(s.skip(1), mask);
    }
}

/// A prefix of `k` masks followed by a non-mask (or the end) is a run of
/// exactly `k`.
pub proof fn lemma_run_len_exact(s: Seq<u16>, mask: u16, k: int)
    requires
        0 <= k <= s.len(),
        forall|m: int| 0 <= m < k ==> s[m] == mask,
        k == s.len() || s[k] != mask,
    ensures
        run_len(s, mask) == k,
    decreases k,
{
    if k == 0 {
    } else {
        assert(s[0] == mask);
        let t = s.skip(1);
        assert forall|m: int| 0 <= m < k - 1 implies t[m] == mask by {
            assert(t[m] == s[m + 1]);
        }
        if k - 1 < t.len() {
            assert(t[k - 1] == s[k]);
        }
        lemma_run_len_exact(t, mask, k - 1);
    }
}

/// The folded form of a mask stream: after each item, a run of `k`
/// consecutive `mask` elements folds one `mask` into the item when `k` is
/// odd, and leaves `k / 2` standalone `mask` elements either way.
pub open spec fn fold_masked(s: Seq<u16>, mask: u16) -> Seq<u16>
    decreases s.len(),
    via fold_masked_decreases
{
    if s.len() == 0 {
        Seq::empty()
    } else {
        let k = run_len(s.skip(1), mask);
        let head = if k % 2 == 1 {
            s[0] | mask
        } else {
            s[0]
        };
        Seq::new(
            1 + k / 2,
            |i: int|
                if i == 0 {
                    head
                } else {
                    mask
                },
        ) + fold_masked(s.skip(1 + k as int), mask)
    }
}

#[via_fn]
proof fn fold_masked_decreases(s: Seq<u16>, mask: u16) {
    if s.len() != 0 {
        lemma_run_len_le(s.skip(1), mask);
    }
}

/// A stream with no `mask` element folds to itself.
pub proof fn lemma_fold_no_mask_identity(s: Seq<u16>, mask: u16)
    requires
        forall|i: int| 0 <= i < s.len() ==> s[i] != mask,
    ensures
        fold_masked(s, mask) == s,
    decreases s.len(),
{
    if s.len() != 0 {
        let t = s.skip(1);
        if t.len() != 0 {
            assert(t[0] == s[1]);
        }
        assert(run_len(t, mask) == 0);
        assert forall|i: int| 0 <= i < t.len() implies t[i] != mask by {
            assert(t[i] == s[i + 1]);
        }
        lemma_fold_no_mask_identity(t, mask);
        assert(fold_masked(s, mask) =~= s);
    }
}

/// A mask at the start of the stream has no predecessor to fold onto: it
/// always comes out as a standalone mask in its own position.
pub proof fn lemma_leading_mask_stands_alone(s: Seq<u16>, mask: u16)
    requires
        s.len() > 0,
        s[0] == mask,
    ensures
        fold_masked(s, mask).len() > 0,
        fold_masked(s, mask)[0] == mask,
{
    assert(mask | mask == mask) by (bit_vector);
}

/// A single mask right after an item folds onto it: the item comes out with
/// the mask OR-ed in, and the rest of the stream folds on its own.
pub proof fn lemma_single_mask_folds(s: Seq<u16>, mask: u16)
    requires
        s.len() >= 2,
        s[1] == mask,
        s.len() == 2 || s[2] != mask,
    ensures
        fold_masked(s, mask) == seq![s[0] | mask] + fold_masked(s.skip(2), mask),
{
    let t = s.skip(1);
    assert(t[0] == s[1]);
    if t.len() > 1 {
        assert(t[1] == s[2]);
    }
    lemma_run_len_exact(t, mask, 1);
    assert(fold_masked(s, mask) =~= seq![s[0] | mask] + fold_masked(s.skip(2), mask));
}

/// A doubled mask does not fold twice: the item keeps its own mask, the pair
/// of masks collapses to one standalone mask, and the rest of the stream
/// folds on its own.
pub proof fn lemma_double_mask_escapes(s: Seq<u16>, mask: u16)
    requires
        s.len() >= 3,
        s[1] == mask,
        s[2] == mask,
        s.len() == 3 || s[3] != mask,
    ensures
        fold_masked(s, mask) == seq![s[0], mask] + fold_masked(s.skip(3), mask),
{
    let t = s.skip(1);
    assert(t[0] == s[1]);
    assert(t[1] == s[2]);
    if t.len() > 2 {
        assert(t[2] == s[3]);
    }
    lemma_run_len_exact(t, mask, 2);
    assert(fold_masked(s, mask) =~= seq![s[0], mask] + fold_masked(s.skip(3), mask));
}

/// Folds the run structure of `input` as [`fold_masked`] describes, in one
/// left-to-right pass.
pub fn fold_runs(input: &[u16], mask: u16) -> (r: Vec<u16>)
    ensures
        r@ == fold_masked(input@, mask),
{
    let ghost s = input@;
    let mut out: Vec<u16> = Vec::new();
    let mut i: usize = 0;
    proof {
        assert(s.skip(0) =~= s);
        assert(out@ + fold_masked(s, mask) =~= fold_masked(s, mask));
    }
    while i < input.len()
        invariant
            i <= s.len(),
            s == input@,
            fold_masked(s, mask) == out@ + fold_masked(s.skip(i as int), mask),
        decreases s.len() - i,
    {
        let head = input[i];
        let mut j: usize = i + 1;
        while j < input.len() && input[j] == mask
            invariant
                s == input@,
                i < j <= s.len(),
                forall|m: int| i < m < j ==> s[m] == mask,
            decreases s.len() - j,
        {
            j = j + 1;
        }
        let k = j - i - 1;
        proof {
            let t = s.skip(i as int + 1);
            assert forall|m: int| 0 <= m < k implies t[m] == mask by {
                assert(t[m] == s[i + 1 + m]);
            }
            if j < s.len() {
                assert(t[k as int] == s[j as int]);
            }
            lemma_run_len_exact(t, mask, k as int);
        }
        let ghost out0 = out@;
        let ghost folded_head: u16 = if k % 2 == 1 {
            head | mask
        } else {
            head
        };
        if k % 2 == 1 {
            out.push(head | mask);
        } else {
            out.push(head);
        }
        let half = k / 2;
        let mut d: usize = 0;
        while d < half
            invariant
                d <= half,
                out@ == out0.push(folded_head) + Seq::new(d as nat, |_x: int| mask),
            decreases half - d,
        {
            out.push(mask);
            proof {
                assert(out0.push(folded_head) + Seq::new((d + 1) as nat, |_x: int| mask)
                    =~= (out0.push(folded_head) + Seq::new(d as nat, |_x: int| mask)).push(mask));
            }
            d = d + 1;
        }
        proof {
            let t = s.skip(i as int);
            assert(t.skip(1) =~= s.skip(i as int + 1));
            assert(t.skip(1 + k as int) =~= s.skip(j as int));
            assert(t[0] == s[i as int]);
            let piece = Seq::new(
                (1 + k / 2) as nat,
                |x: int|
                    if x == 0 {
                        folded_head
                    } else {
                        mask
                    },
            );
            assert(fold_masked(t, mask) == piece + fold_masked(s.skip(j as int), mask));
            assert(out@ =~= out0 + piece);
            assert(out@ + fold_masked(s.skip(j as int), mask) =~= out0 + fold_masked(
                t,
                mask,
            ));
        }
        i = j;
    }
    proof {
        assert(s.skip(s.len() as int) =~= Seq::<u16>::empty());
        assert(out@ =~= out@ + Seq::<u16>::empty());
    }
    out
}

/// Yields the folded form of a mask stream one element at a time, in the
/// order [`fold_masked`] gives.
pub struct PeriodInterpreter {
    folded: Vec<u16>,
    pos: usize,
}

impl PeriodInterpreter {
    /// The interpreter never steps past the end of its folded stream.
    pub closed spec fn wf(&self) -> bool {
        self.pos <= self.folded@.len()
    }

    /// The masks still to be yielded, in order.
    pub closed spec fn remaining(&self) -> Seq<u16> {
        self.folded@.skip(self.pos as int)
    }

    /// Builds an interpreter over `input`, folding runs of `mask`.
    pub fn new(input: Vec<u16>, mask: u16) -> (r: Self)
        ensures
            r.wf(),
            r.remaining() == fold_masked(input@, mask),
    {
        let folded = fold_runs(input.as_slice(), mask);
        proof {
            assert(folded@.skip(0) =~= folded@);
        }
        PeriodInterpreter { folded, pos: 0 }
    }

    /// The next folded mask, or `None` once the stream is exhausted.
    pub fn next(&mut self) -> (r: Option<u16>)
        requires
            old(self).wf(),
        ensures
            final(self).wf(),
            old(self).remaining().len() > 0 ==> r == Some(old(self).remaining()[0])
                && final(self).remaining() == old(self).remaining().skip(1),
            old(self).remaining().len() == 0 ==> r is None && final(self).remaining() == old(
                self,
            ).remaining(),
    {
        if self.pos < self.folded.len() {
            let v = self.folded[self.pos];
            self.pos = self.pos + 1;
            proof {
                assert(old(self).folded@.skip(old(self).pos as int).skip(1) =~= self.folded@.skip(
                    self.pos as int,
                ));
            }
            Some(v)
        } else {
            None
        }
    }

    /// Drains the interpreter into a vector of the masks it would yield.
    pub fn into_vec(self) -> (r: Vec<u16>)
        requires
            self.wf(),
        ensures
            r@ == self.remaining(),
    {
        let mut out: Vec<u16> = Vec::new();
        let mut p = self.pos;
        while p < self.folded.len()
            invariant
                self.pos <= p <= self.folded@.len(),
                out@ == self.folded@.subrange(self.pos as int, p as int),
            decreases self.folded@.len() - p,
        {
            out.push(self.folded[p]);
            proof {
                assert(self.folded@.subrange(self.pos as int, p as int + 1) =~= self.folded@
                    .subrange(self.pos as int, p as int).push(self.folded@[p as int]));
            }
            p = p + 1;
        }
        proof {
            assert(self.folded@.subrange(self.pos as int, self.folded@.len() as int)
                =~= self.folded@.skip(self.pos as int));
        }
        out
    }
}

/// Maps `input` through the glyph table and folds runs of the decimal-point
/// mask: the full dot-folding encode of a byte sequence.
pub fn period_iter(input: &[u8]) -> (r: Vec<u16>)
    ensures
        r@ == fold_masked(fonts::glyphs_of(input@), PERIOD),
{
    let glyphs = fonts::ascii_iter(input);
    fold_runs(glyphs.as_slice(), PERIOD)
}

} // verus!
