//! The circular delay line: a fixed-size buffer of sample bit patterns plus a
//! write cursor. Reading `d` positions behind the cursor wraps modulo the
//! buffer size. This is the sole mutable state of every effect in the crate.

use vstd::prelude::*;

verus! {

/// Largest buffer size a delay line may be built with; keeps the wrap-around
/// index arithmetic far from `usize` overflow.
pub const MAX_LINE_LEN: usize = 0x7FFF_FFFF;

/// A fixed-size circular buffer of sample bit patterns with a write cursor.
///
/// The size is fixed at construction and never changes; the cursor always
/// stays inside the buffer. A size of zero is representable (an effect tuned
/// for a very low sample rate can derive an empty line) but such a line
/// cannot be read or written.
pub struct DelayLine {
    buf: Vec<u32>,
    cursor: usize,
}

impl DelayLine {
    /// The stored sample bit patterns, oldest-to-newest only relative to the
    /// cursor.
    pub closed spec fn contents(&self) -> Seq<u32> {
        self.buf@
    }

    /// The current write position.
    pub closed spec fn cursor(&self) -> int {
        self.cursor as int
    }

    /// The fixed buffer size.
    pub open spec fn capacity(&self) -> int {
        self.contents().len() as int
    }

    /// Structural invariant: the cursor is inside the buffer (or zero when
    /// the buffer is empty) and the size leaves headroom for index sums.
    pub open spec fn wf(&self) -> bool {
        &&& self.capacity() <= MAX_LINE_LEN
        &&& self.capacity() > 0 ==> 0 <= self.cursor() < self.capacity()
        &&& self.capacity() == 0 ==> self.cursor() == 0
    }

    /// The buffer index that sits `d` positions behind the cursor, wrapping
    /// modulo the capacity.
    pub open spec fn read_index(&self, d: int) -> int
        recommends
            self.capacity() > 0,
    {
        (self.capacity() + self.cursor() - d) % self.capacity()
    }

    /// True when every cell holds the zero pattern and the cursor is at the
    /// start: the state of a freshly built or freshly reset line.
    pub open spec fn is_fresh(&self) -> bool {
        &&& self.contents() == Seq::<u32>::new(self.capacity() as nat, |i: int| 0u32)
        &&& self.cursor() == 0
    }

    /// Builds a zeroed line of the given size.
    pub fn new(size: usize) -> (r: DelayLine)
        requires
            size <= MAX_LINE_LEN,
        ensures
            r.wf(),
            r.capacity() == size,
            r.is_fresh(),
    {
        let mut buf: Vec<u32> = Vec::new();
        let mut i: usize = 0;
        while i < size
            invariant
                i <= size,
                buf@ == Seq::<u32>::new(i as nat, |j: int| 0u32),
            decreases size - i,
        {
            buf.push(0);
            proof {
                assert(buf@ =~= Seq::<u32>::new((i + 1) as nat, |j: int| 0u32));
            }
            i = i + 1;
        }
        DelayLine { buf, cursor: 0 }
    }

    /// The fixed buffer size.
    pub fn size(&self) -> (r: usize)
        ensures
            r == self.capacity(),
    {
        self.buf.len()
    }

    /// The current write position.
    pub fn cursor_pos(&self) -> (r: usize)
        ensures
            r == self.cursor(),
    {
        self.cursor
    }

    /// Reads the sample `d` positions behind the cursor, wrapping modulo the
    /// capacity. With `d == 0` this yields the cell the cursor stands on,
    /// which holds the value written a full revolution ago.
    pub fn tap(&self, d: usize) -> (r: u32)
        requires
            self.wf(),
            self.capacity() > 0,
            d < self.capacity(),
        ensures
            r == self.contents()[self.read_index(d as int)],
    {
        let size = self.buf.len();
        let idx = (size + self.cursor - d) % size;
        self.buf[idx]
    }

    /// Reads the cell at an absolute buffer index.
    pub fn read_at(&self, i: usize) -> (r: u32)
        requires
            self.wf(),
            i < self.capacity(),
        ensures
            r == self.contents()[i as int],
    {
        self.buf[i]
    }

    /// Overwrites the cell the cursor stands on, leaving the cursor in place.
    pub fn store(&mut self, v: u32)
        requires
            old(self).wf(),
            old(self).capacity() > 0,
        ensures
            final(self).wf(),
            final(self).capacity() == old(self).capacity(),
            final(self).cursor() == old(self).cursor(),
            final(self).contents() == old(self).contents().update(old(self).cursor(), v),
    {
        let c = self.cursor;
        self.buf.set(c, v);
    }

    /// Advances the cursor one position, wrapping modulo the capacity.
    pub fn advance(&mut self)
        requires
            old(self).wf(),
            old(self).capacity() > 0,
        ensures
            final(self).wf(),
            final(self).capacity() == old(self).capacity(),
            final(self).contents() == old(self).contents(),
            final(self).cursor() == (old(self).cursor() + 1) % old(self).capacity(),
    {
        self.cursor = (self.cursor + 1) % self.buf.len();
    }

    /// Writes a value at the cursor, then advances the cursor: one full
    /// production step of the line.
    pub fn push(&mut self, v: u32)
        requires
            old(self).wf(),
            old(self).capacity() > 0,
        ensures
            final(self).wf(),
            final(self).capacity() == old(self).capacity(),
            final(self).contents() == old(self).contents().update(old(self).cursor(), v),
            final(self).cursor() == (old(self).cursor() + 1) % old(self).capacity(),
    {
        self.store(v);
        self.advance();
    }

    /// Restores the construction-time state: every cell zero, cursor at the
    /// start. The capacity is untouched.
    pub fn reset(&mut self)
        requires
            old(self).wf(),
        ensures
            final(self).wf(),
            final(self).capacity() == old(self).capacity(),
            final(self).is_fresh(),
    {
        let size = self.buf.len();
        let fresh_line = DelayLine::new(size);
        *self = fresh_line;
    }

    /// The abstract state of this line: its cells and its cursor.
    pub open spec fn model(&self) -> LineModel {
        LineModel { cells: self.contents(), cursor: self.cursor() }
    }
}

/// The abstract state of a delay line.
pub struct LineModel {
    pub cells: Seq<u32>,
    pub cursor: int,
}

/// One production step of an abstract line of `size` cells: write at the
/// cursor, advance modulo `size`. This is exactly what `DelayLine::push`
/// promises of the concrete state.
pub open spec fn model_push(size: int, m: LineModel, v: u32) -> LineModel {
    LineModel { cells: m.cells.update(m.cursor, v), cursor: (m.cursor + 1) % size }
}

/// The abstract state a fresh line of `size` cells reaches after pushing the
/// values of `inputs`, in order.
pub open spec fn run_line(size: int, inputs: Seq<u32>) -> LineModel
    decreases inputs.len(),
{
    if inputs.len() == 0 {
        LineModel { cells: Seq::new(size as nat, |i: int| 0u32), cursor: 0 }
    } else {
        model_push(size, run_line(size, inputs.drop_last()), inputs.last())
    }
}

/// The value an abstract line yields `d` positions behind its cursor.
pub open spec fn model_tap(size: int, m: LineModel, d: int) -> u32 {
    m.cells[(size + m.cursor - d) % size]
}

/// Congruent distinct numbers are at least the modulus apart.
proof fn lemma_mod_separates(n: int, a: int, b: int)
    requires
        1 <= n,
        0 <= a,
        a < b,
        b - a < n,
    ensures
        a % n != b % n,
{
    assert(a % n != b % n) by (nonlinear_arith)
        requires
            1 <= n,
            0 <= a,
            a < b,
            b - a < n,
    ;
}

/// What a run leaves in each cell: the cursor has gone round `inputs.len()`
/// times; a cell holds the most recent input written to it, and cells no
/// input has reached yet still hold zero.
pub proof fn lemma_run_line_cells(size: int, inputs: Seq<u32>)
    requires
        1 <= size,
    ensures
        run_line(size, inputs).cells.len() == size,
        run_line(size, inputs).cursor == inputs.len() as int % size,
        forall|i: int|
            0 <= i < inputs.len() && inputs.len() <= i + size ==> run_line(size, inputs).cells[i
                % size] == inputs[i],
        forall|j: int| inputs.len() <= j < size ==> run_line(size, inputs).cells[j] == 0u32,
    decreases inputs.len(),
{
    let m = inputs.len() as int;
    if m == 0 {
        assert(0int % size == 0) by (nonlinear_arith)
            requires
                1 <= size,
        ;
    } else {
        let prev = inputs.drop_last();
        let v = inputs.last();
        lemma_run_line_cells(size, prev);
        let pm = run_line(size, prev);
        let cur = pm.cursor;
        assert(cur == (m - 1) % size);
        assert(0 <= cur < size) by (nonlinear_arith)
            requires
                1 <= size,
                cur == (m - 1) % size,
        ;
        assert(((m - 1) % size + 1) % size == m % size) by (nonlinear_arith)
            requires
                1 <= size,
                1 <= m,
        ;
        assert forall|i: int| 0 <= i < m && m <= i + size implies run_line(size, inputs).cells[i
            % size] == inputs[i] by {
            assert(0 <= i % size < size) by (nonlinear_arith)
                requires
                    1 <= size,
                    0 <= i,
            ;
            if i == m - 1 {
                assert(i % size == cur);
                assert(run_line(size, inputs).cells[i % size] == v);
            } else {
                lemma_mod_separates(size, i, m - 1);
                assert(i % size != cur);
                assert(run_line(size, inputs).cells[i % size] == pm.cells[i % size]);
                assert(prev[i] == inputs[i]);
            }
        }
        assert forall|j: int| m <= j < size implies run_line(size, inputs).cells[j] == 0u32 by {
            assert(m < size);
            assert((m - 1) % size == m - 1) by (nonlinear_arith)
                requires
                    0 <= m - 1 < size,
            ;
            assert(j != cur);
            assert(run_line(size, inputs).cells[j] == pm.cells[j]);
        }
    }
}

/// Echo timing: reading `d` positions behind the cursor after a run yields
/// the input from `d` steps ago (a full revolution ago when `d` is zero), and
/// zero while the run is still shorter than that distance. This is the exact
/// arrival time of a delayed echo.
pub proof fn lemma_line_tap_timing(size: int, inputs: Seq<u32>, d: int)
    requires
        1 <= size,
        0 <= d < size,
    ensures
        ({
            let eff = if d == 0 {
                size
            } else {
                d
            };
            model_tap(size, run_line(size, inputs), d) == if inputs.len() >= eff {
                inputs[inputs.len() - eff]
            } else {
                0u32
            }
        }),
{
    let m = inputs.len() as int;
    let eff = if d == 0 {
        size
    } else {
        d
    };
    lemma_run_line_cells(size, inputs);
    let rm = run_line(size, inputs);
    let p = (size + rm.cursor - d) % size;
    assert(rm.cursor == m % size);
    assert(0 <= m % size < size) by (nonlinear_arith)
        requires
            1 <= size,
            0 <= m,
    ;
    if m >= eff {
        let i = m - eff;
        assert((size + m % size - d) % size == i % size) by (nonlinear_arith)
            requires
                1 <= size,
                0 <= d < size,
                0 <= m,
                eff == if d == 0 {
                    size
                } else {
                    d
                },
                i == m - eff,
        ;
        assert(0 <= i < m && m <= i + size);
        assert(rm.cells[i % size] == inputs[i]);
    } else {
        assert(m < size);
        assert(m % size == m) by (nonlinear_arith)
            requires
                0 <= m < size,
        ;
        if d == 0 {
            assert((size + m - 0) % size == m) by (nonlinear_arith)
                requires
                    0 <= m < size,
                    1 <= size,
            ;
            assert(p == m);
        } else {
            assert(m < d);
            assert((size + m - d) % size == size + m - d) by (nonlinear_arith)
                requires
                    1 <= size,
                    0 <= m,
                    m < d < size,
            ;
            assert(p == size + m - d);
            assert(m <= p < size);
        }
        assert(rm.cells[p] == 0u32);
    }
}

/// One more push extends a run by one input: the abstract step function and
/// the run agree, so the run invariant is maintained push by push.
pub proof fn lemma_run_line_step(size: int, outs: Seq<u32>, v: u32)
    requires
        1 <= size,
    ensures
        model_push(size, run_line(size, outs), v) == run_line(size, outs.push(v)),
{
    assert(outs.push(v).drop_last() =~= outs);
    assert(outs.push(v).last() == v);
}

/// Revolution timing: the cell a line's cursor stands on holds the value
/// pushed exactly one full buffer length ago, and zero during the first
/// revolution. This is what a comb or all-pass filter reads each step.
pub proof fn lemma_revolution_timing(l: DelayLine, pushed: Seq<u32>)
    requires
        l.wf(),
        l.capacity() > 0,
        l.model() == run_line(l.capacity(), pushed),
    ensures
        l.contents()[l.cursor()] == if pushed.len() >= l.capacity() {
            pushed[pushed.len() - l.capacity()]
        } else {
            0u32
        },
{
    let size = l.capacity();
    let cur = l.cursor();
    lemma_line_tap_timing(size, pushed, 0);
    assert((size + cur - 0) % size == cur) by (nonlinear_arith)
        requires
            1 <= size,
            0 <= cur < size,
    ;
}

/// Reset and replay reproduce a run exactly: any two fresh lines of the same
/// capacity are in the same abstract state, the state a fresh line reaches is
/// a function of the pushed values alone, and `DelayLine::reset` ends in a
/// fresh state just as `DelayLine::new` does. So running the same values
/// through a line after a reset passes through exactly the states of the
/// first run.
pub proof fn lemma_fresh_replay(a: DelayLine, b: DelayLine)
    requires
        a.wf(),
        b.wf(),
        a.capacity() == b.capacity(),
        a.is_fresh(),
        b.is_fresh(),
    ensures
        a.model() == b.model(),
        a.model() == run_line(a.capacity(), Seq::<u32>::empty()),
{
    assert(a.contents() =~= b.contents());
    assert(run_line(a.capacity(), Seq::<u32>::empty()).cells =~= a.contents());
}


} // verus!
