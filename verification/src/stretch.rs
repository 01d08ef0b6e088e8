//! Control-flow core of the stretch engine.
//!
//! Everything here is exact arithmetic: the fade-region length, the
//! even window length, the overlap-add index structure, and the state
//! machine that decides, iteration by iteration, how many samples to
//! read, what progress to report, and when the loop stops.

use vstd::arithmetic::div_mod::lemma_mod_multiples_basic;
use vstd::prelude::*;

verus! {

/// Number of trailing input samples that receive the fade-to-zero ramp:
/// one twentieth of a second, but never fewer than 16 samples.
pub fn compute_end_size(sample_rate: u32) -> (r: usize)
    ensures
        r == if sample_rate / 20 < 16 { 16 as int } else { (sample_rate / 20) as int },
        r >= 16,
{
    let end_size = sample_rate / 20;
    if end_size < 16 {
        16
    } else {
        end_size as usize
    }
}

/// FFT window length for a requested raw sample count: at least 16 and
/// always even, so the window splits into two equal halves and a real
/// FFT of it is symmetric.
pub fn compute_window_size(raw_len: usize) -> (r: usize)
    ensures
        r == if raw_len < 16 { 16 as int } else { raw_len - raw_len % 2 },
        r >= 16,
        r % 2 == 0,
{
    if raw_len < 16 {
        16
    } else {
        raw_len - raw_len % 2
    }
}

/// Overlap-add of two processed windows under a 50% hop: element `i` of
/// `added` combines the first half of the current window with the
/// second half of the previous one, `combine(current[i], prev[half + i])`.
/// The combining operation is supplied by the caller.
pub fn overlap_add<T: Copy, F: Fn(T, T) -> T>(
    current: &Vec<T>,
    prev: &Vec<T>,
    added: &mut Vec<T>,
    combine: F,
)
    requires
        current@.len() == prev@.len(),
        current@.len() % 2 == 0,
        old(added)@.len() == current@.len() / 2,
        forall|i: int|
            0 <= i < current@.len() / 2 ==> call_requires(
                combine,
                (current@[i], prev@[current@.len() / 2 + i]),
            ),
    ensures
        final(added)@.len() == current@.len() / 2,
        forall|i: int|
            0 <= i < current@.len() / 2 ==> call_ensures(
                combine,
                (current@[i], prev@[current@.len() / 2 + i]),
                #[trigger] final(added)@[i],
            ),
{
    let len = current.len();
    let half = len / 2;
    let mut i: usize = 0;
    while i < half
        invariant
            len == current@.len(),
            half == current@.len() / 2,
            current@.len() == prev@.len(),
            current@.len() % 2 == 0,
            added@.len() == current@.len() / 2,
            0 <= i <= half,
            forall|j: int|
                0 <= j < current@.len() / 2 ==> call_requires(
                    combine,
                    (current@[j], prev@[current@.len() / 2 + j]),
                ),
            forall|j: int|
                0 <= j < i ==> call_ensures(
                    combine,
                    (current@[j], prev@[current@.len() / 2 + j]),
                    #[trigger] added@[j],
                ),
        decreases half - i,
    {
        assert(half + i < len);
        assert(call_requires(combine, (current@[i as int], prev@[current@.len() / 2 + i])));
        let v = combine(current[i], prev[half + i]);
        added[i] = v;
        i += 1;
    }
}

/// Loop controller of one stretch-engine invocation.
///
/// The engine advances a fractional read cursor through the input; this
/// controller receives the floored cursor after every advance and makes
/// every structural decision of the loop: how many samples the next
/// read may take before zero padding begins, which iteration number to
/// report, whether the iteration's block is emitted, and when the loop
/// is finished. The output grows by exactly `half_window_size` samples
/// per emitted block.
pub struct StretchControl {
    input_len: usize,
    window_size: usize,
    half_window_size: usize,
    max_iters: u32,
    iters: u32,
    blocks: usize,
    pos: usize,
    done: bool,
}

impl StretchControl {
    /// Length of the input channel being stretched.
    pub closed spec fn input_len(self) -> int {
        self.input_len as int
    }

    /// FFT window length in samples.
    pub closed spec fn window_size(self) -> int {
        self.window_size as int
    }

    /// Half the window length: the hop size, and the length of every
    /// emitted output block.
    pub closed spec fn half_window_size(self) -> int {
        self.half_window_size as int
    }

    /// Total iteration count used for progress reporting.
    pub closed spec fn max_iters(self) -> int {
        self.max_iters as int
    }

    /// Number of completed iterations, reported to the progress callback.
    pub closed spec fn iters(self) -> int {
        self.iters as int
    }

    /// Number of output blocks emitted so far.
    pub closed spec fn blocks(self) -> int {
        self.blocks as int
    }

    /// Floored position of the fractional read cursor.
    pub closed spec fn position(self) -> int {
        self.pos as int
    }

    /// Whether the loop has reached its terminal state.
    pub closed spec fn is_done(self) -> bool {
        self.done
    }

    /// Length of the accumulated output: every emitted block appends
    /// exactly half a window.
    pub open spec fn output_len(self) -> int {
        self.blocks() * self.half_window_size()
    }

    /// Well-formedness: the window is even and at least 16 samples long,
    /// the hop is half of it, the input is non-empty, while the loop is
    /// running the cursor still points inside the input, and every
    /// completed iteration has emitted exactly one block.
    pub closed spec fn wf(self) -> bool {
        &&& self.window_size >= 16
        &&& self.window_size % 2 == 0
        &&& self.half_window_size == self.window_size / 2
        &&& self.input_len >= 1
        &&& (!self.done ==> self.pos < self.input_len)
        &&& self.iters as int == self.blocks as int
    }

    /// Controller for a fresh engine invocation: the cursor starts at
    /// zero and nothing has been iterated or emitted yet.
    pub fn new(input_len: usize, window_size: usize, max_iters: u32) -> (r: StretchControl)
        requires
            input_len >= 1,
            window_size >= 16,
            window_size % 2 == 0,
        ensures
            r.wf(),
            r.input_len() == input_len,
            r.window_size() == window_size,
            r.half_window_size() == window_size / 2,
            r.max_iters() == max_iters,
            r.iters() == 0,
            r.blocks() == 0,
            r.position() == 0,
            !r.is_done(),
    {
        StretchControl {
            input_len,
            window_size,
            half_window_size: window_size / 2,
            max_iters,
            iters: 0,
            blocks: 0,
            pos: 0,
            done: false,
        }
    }

    /// Numbers to hand to the progress callback at the top of the loop:
    /// the current iteration index and the projected total.
    pub fn progress(&self) -> (r: (u32, u32))
        ensures
            r.0 == self.iters(),
            r.1 == self.max_iters(),
    {
        (self.iters, self.max_iters)
    }

    /// Hop size in samples, the length of every emitted block.
    pub fn half_window(&self) -> (r: usize)
        ensures
            r == self.half_window_size(),
    {
        self.half_window_size
    }

    /// Window length in samples.
    pub fn window(&self) -> (r: usize)
        ensures
            r == self.window_size(),
    {
        self.window_size
    }

    /// Floored read cursor: the index of the first sample of the next read.
    pub fn start_index(&self) -> (r: usize)
        ensures
            r == self.position(),
    {
        self.pos
    }

    /// How many input samples the next window read takes from the
    /// cursor onward; the remaining `window_size - r` slots of the
    /// window buffer are zero padding past the end of the input.
    pub fn read_len(&self) -> (r: usize)
        requires
            self.wf(),
            !self.is_done(),
        ensures
            r == if self.input_len() - self.position() < self.window_size() {
                self.input_len() - self.position()
            } else {
                self.window_size()
            },
            1 <= r <= self.window_size(),
            self.position() + r <= self.input_len(),
    {
        let remaining = self.input_len - self.pos;
        if remaining > self.window_size {
            self.window_size
        } else {
            remaining
        }
    }

    /// Terminal decision after the cursor advance: the iteration's block
    /// is emitted exactly when the new floored cursor still lies inside
    /// the input; otherwise the loop stops and the block is discarded.
    /// An emitted block appends half a window to the output and is
    /// followed by the next iteration, whose progress index is one higher.
    pub fn advance(&mut self, new_start: usize) -> (emit: bool)
        requires
            old(self).wf(),
            !old(self).is_done(),
            new_start >= old(self).position(),
            old(self).iters() < u32::MAX,
            old(self).blocks() < usize::MAX,
        ensures
            final(self).wf(),
            emit == (new_start < old(self).input_len()),
            final(self).is_done() == !emit,
            final(self).position() == new_start,
            final(self).input_len() == old(self).input_len(),
            final(self).window_size() == old(self).window_size(),
            final(self).half_window_size() == old(self).half_window_size(),
            final(self).max_iters() == old(self).max_iters(),
            emit ==> final(self).iters() == old(self).iters() + 1,
            emit ==> final(self).blocks() == old(self).blocks() + 1,
            emit ==> final(self).output_len() == old(self).output_len()
                + old(self).half_window_size(),
            !emit ==> final(self).iters() == old(self).iters(),
            !emit ==> final(self).blocks() == old(self).blocks(),
            !emit ==> final(self).output_len() == old(self).output_len(),
    {
        self.pos = new_start;
        if new_start < self.input_len {
            self.iters = self.iters + 1;
            self.blocks = self.blocks + 1;
            proof {
                let b = old(self).blocks();
                let h = old(self).half_window_size();
                assert((b + 1) * h == b * h + h) by (nonlinear_arith);
            }
            true
        } else {
            self.done = true;
            false
        }
    }
}

/// The output of a stretch run always holds a whole number of
/// half-window blocks: it grows by exactly `half_window_size` samples
/// per completed iteration, so its length is a multiple of
/// `half_window_size`, and it is empty exactly when no iteration
/// completed — that is, when the loop stopped on its very first
/// cursor advance.
pub proof fn lemma_output_shape(c: StretchControl)
    requires
        c.wf(),
    ensures
        c.output_len() % c.half_window_size() == 0,
        c.output_len() == c.iters() * c.half_window_size(),
        (c.output_len() == 0) <==> (c.iters() == 0),
{
    lemma_mod_multiples_basic(c.blocks(), c.half_window_size());
    assert((c.blocks() * c.half_window_size() == 0) <==> (c.blocks() == 0))
        by (nonlinear_arith)
        requires c.half_window_size() >= 8;
}

} // verus!
