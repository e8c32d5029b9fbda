//! The highlighted row of a list with a fixed number of rows.

use vstd::prelude::*;

verus! {

/// The row after `i` in a list of `n` rows; the last row is followed by the first.
pub open spec fn next_index(i: int, n: int) -> int
    recommends
        0 <= i < n,
{
    (i + 1) % n
}

/// The row before `i` in a list of `n` rows; the first row is preceded by the last.
pub open spec fn prev_index(i: int, n: int) -> int
    recommends
        0 <= i < n,
{
    (i + n - 1) % n
}

/// Going forward wraps only from the last row.
pub proof fn lemma_next_index(i: int, n: int)
    requires
        0 <= i < n,
    ensures
        next_index(i, n) == (if i + 1 == n { 0 } else { i + 1 }),
        0 <= next_index(i, n) < n,
{
    if i + 1 == n {
        vstd::arithmetic::div_mod::lemma_mod_self_0(n);
    } else {
        vstd::arithmetic::div_mod::lemma_small_mod((i + 1) as nat, n as nat);
    }
}

/// Going backward wraps only from the first row.
pub proof fn lemma_prev_index(i: int, n: int)
    requires
        0 <= i < n,
    ensures
        prev_index(i, n) == (if i == 0 { n - 1 } else { i - 1 }),
        0 <= prev_index(i, n) < n,
{
    if i == 0 {
        vstd::arithmetic::div_mod::lemma_small_mod((n - 1) as nat, n as nat);
    } else {
        vstd::arithmetic::div_mod::lemma_mod_add_multiples_vanish(i - 1, n);
        vstd::arithmetic::div_mod::lemma_small_mod((i - 1) as nat, n as nat);
    }
}

/// Going forward and then backward, or backward and then forward, changes nothing.
pub proof fn lemma_next_prev_inverse(i: int, n: int)
    requires
        0 <= i < n,
    ensures
        prev_index(next_index(i, n), n) == i,
        next_index(prev_index(i, n), n) == i,
{
    lemma_next_index(i, n);
    lemma_prev_index(i, n);
    lemma_prev_index(next_index(i, n), n);
    lemma_next_index(prev_index(i, n), n);
}

/// The row reached from `i` by going forward `steps` times.
pub open spec fn advance(i: int, n: int, steps: nat) -> int
    decreases steps,
{
    if steps == 0 {
        i
    } else {
        next_index(advance(i, n, (steps - 1) as nat), n)
    }
}

/// Going forward `steps` times adds `steps` to the row, modulo the number of rows.
pub proof fn lemma_advance(i: int, n: int, steps: nat)
    requires
        0 <= i < n,
    ensures
        advance(i, n, steps) == (i + steps) % n,
        0 <= advance(i, n, steps) < n,
    decreases steps,
{
    if steps == 0 {
        vstd::arithmetic::div_mod::lemma_small_mod(i as nat, n as nat);
    } else {
        lemma_advance(i, n, (steps - 1) as nat);
        let before = advance(i, n, (steps - 1) as nat);
        vstd::arithmetic::div_mod::lemma_add_mod_noop(i + steps - 1, 1, n);
        vstd::arithmetic::div_mod::lemma_mod_twice(i + steps - 1, n);
        vstd::arithmetic::div_mod::lemma_add_mod_noop(before, 1, n);
    }
}

/// Going forward as many times as there are rows leads back to the row one started from.
pub proof fn lemma_full_cycle(i: int, n: int)
    requires
        0 <= i < n,
    ensures
        advance(i, n, n as nat) == i,
{
    lemma_advance(i, n, n as nat);
    vstd::arithmetic::div_mod::lemma_mod_add_multiples_vanish(i, n);
    vstd::arithmetic::div_mod::lemma_small_mod(i as nat, n as nat);
}

/// A selected row of a list of fixed length. A row is always selected.
#[derive(Debug)]
pub struct SelectableCursor {
    index: usize,
    count: usize,
}

impl SelectableCursor {
    /// The selected row.
    pub closed spec fn position(self) -> int {
        self.index as int
    }

    /// The number of rows.
    pub closed spec fn len(self) -> int {
        self.count as int
    }

    /// The selected row is one of the list's rows.
    #[verifier::type_invariant]
    pub open spec fn in_range(self) -> bool {
        0 <= self.position() < self.len()
    }

    /// A cursor on the first of `count` rows.
    pub fn new(count: usize) -> (cursor: Self)
        requires
            count > 0,
        ensures
            cursor.position() == 0,
            cursor.len() == count,
    {
        SelectableCursor { index: 0, count }
    }

    /// The selected row, which is always one of the list's rows.
    pub fn selected(&self) -> (i: usize)
        ensures
            i == self.position(),
            i < self.len(),
    {
        proof {
            use_type_invariant(self);
        }
        self.index
    }

    /// The number of rows.
    pub fn count(&self) -> (n: usize)
        ensures
            n == self.len(),
            n > 0,
    {
        proof {
            use_type_invariant(self);
        }
        self.count
    }

    /// Moves to the next row, from the last row to the first.
    pub fn select_next(&mut self)
        ensures
            final(self).position() == next_index(old(self).position(), old(self).len()),
            final(self).len() == old(self).len(),
        no_unwind
    {
        proof {
            use_type_invariant(&*self);
            lemma_next_index(self.index as int, self.count as int);
        }
        if self.index >= self.count - 1 {
            self.index = 0;
        } else {
            self.index = self.index + 1;
        }
    }

    /// Moves to the previous row, from the first row to the last.
    pub fn select_previous(&mut self)
        ensures
            final(self).position() == prev_index(old(self).position(), old(self).len()),
            final(self).len() == old(self).len(),
        no_unwind
    {
        proof {
            use_type_invariant(&*self);
            lemma_prev_index(self.index as int, self.count as int);
        }
        if self.index == 0 {
            self.index = self.count - 1;
        } else {
            self.index = self.index - 1;
        }
    }
}

} // verus!
