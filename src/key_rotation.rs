use vstd::arithmetic::div_mod::{
    lemma_add_mod_noop, lemma_add_mod_noop_right, lemma_mod_self_0, lemma_small_mod,
};
use vstd::prelude::*;

verus! {

/// The cursor position that follows `c` in a rotation over `n` keys.
pub open spec fn next_cursor(c: nat, n: nat) -> nat {
    if c + 1 >= n {
        0
    } else {
        c + 1
    }
}

/// Where the cursor stands after `m` sequential calls, starting at `c`.
pub open spec fn cursor_after(c: nat, n: nat, m: nat) -> nat
    decreases m,
{
    if m == 0 {
        c
    } else {
        cursor_after(next_cursor(c, n), n, (m - 1) as nat)
    }
}

/// How many of `m` sequential calls, starting at cursor `c`, hand out key `k`.
pub open spec fn visits(c: nat, n: nat, m: nat, k: nat) -> nat
    decreases m,
{
    if m == 0 {
        0
    } else {
        (if c == k {
            1nat
        } else {
            0nat
        }) + visits(next_cursor(c, n), n, (m - 1) as nat, k)
    }
}

/// A fixed, non-empty list of API keys handed out in strict round-robin order.
pub struct KeyRotation {
    keys: Vec<String>,
    index: usize,
}

impl KeyRotation {
    /// The keys, in rotation order.
    pub closed spec fn keys(&self) -> Seq<String> {
        self.keys@
    }

    /// The position of the key that the next call hands out.
    pub closed spec fn cursor(&self) -> nat {
        self.index as nat
    }

    pub open spec fn wf(&self) -> bool {
        &&& self.keys().len() > 0
        &&& self.cursor() < self.keys().len()
    }

    /// Builds a rotation that starts at the first key; `None` when `keys` is empty.
    pub fn new(keys: Vec<String>) -> (r: Option<Self>)
        ensures
            keys@.len() == 0 <==> r is None,
            r matches Some(k) ==> k.wf() && k.keys() == keys@ && k.cursor() == 0,
    {
        if keys.len() == 0 {
            None
        } else {
            Some(KeyRotation { keys, index: 0 })
        }
    }

    /// The number of keys in the rotation.
    pub fn len(&self) -> (r: usize)
        ensures
            r as nat == self.keys().len(),
    {
        self.keys.len()
    }

    pub fn get_index(&self) -> (r: usize)
        ensures
            r as nat == self.cursor(),
    {
        self.index
    }

    pub fn set_index(&mut self, new_index: usize)
        requires
            new_index < old(self).keys().len(),
        ensures
            final(self).keys() == old(self).keys(),
            final(self).cursor() == new_index as nat,
            final(self).wf(),
    {
        self.index = new_index;
    }

    /// Moves the cursor one key on, wrapping to the first key after the last.
    pub fn increment_index(&mut self)
        requires
            old(self).wf(),
        ensures
            final(self).wf(),
            final(self).keys() == old(self).keys(),
            final(self).cursor() == next_cursor(old(self).cursor(), old(self).keys().len()),
    {
        let index = self.get_index();
        if index >= self.keys.len() - 1 {
            self.set_index(0);
        } else {
            self.set_index(index + 1);
        }
    }

    /// Hands out the key under the cursor and moves the cursor on.
    pub fn next_key(&mut self) -> (r: String)
        requires
            old(self).wf(),
        ensures
            r == old(self).keys()[old(self).cursor() as int],
            final(self).wf(),
            final(self).keys() == old(self).keys(),
            final(self).cursor() == next_cursor(old(self).cursor(), old(self).keys().len()),
    {
        let index = self.get_index();
        self.increment_index();
        self.keys[index].clone()
    }
}

proof fn lemma_split(c: nat, n: nat, a: nat, b: nat, k: nat)
    ensures
        visits(c, n, a + b, k) == visits(c, n, a, k) + visits(cursor_after(c, n, a), n, b, k),
        cursor_after(c, n, a + b) == cursor_after(cursor_after(c, n, a), n, b),
    decreases a,
{
    if a > 0 {
        lemma_split(next_cursor(c, n), n, (a - 1) as nat, b, k);
        assert((a + b - 1) as nat == (a - 1) as nat + b);
    }
}

proof fn lemma_no_wrap(c: nat, n: nat, len: nat, k: nat)
    requires
        c < n,
        c + len <= n,
    ensures
        visits(c, n, len, k) == (if c <= k < c + len {
            1nat
        } else {
            0nat
        }),
        cursor_after(c, n, len) == (if c + len == n {
            0nat
        } else {
            c + len
        }),
    decreases len,
{
    if len > 0 {
        let rest = (len - 1) as nat;
        if c + 1 < n {
            lemma_no_wrap(c + 1, n, rest, k);
        } else {
            assert(rest == 0);
            assert(visits(0, n, rest, k) == 0);
            assert(cursor_after(0, n, rest) == 0);
        }
        assert(visits(c, n, len, k) == (if c == k {
            1nat
        } else {
            0nat
        }) + visits(next_cursor(c, n), n, rest, k));
        assert(cursor_after(c, n, len) == cursor_after(next_cursor(c, n), n, rest));
    }
}

proof fn lemma_one_round(c: nat, n: nat, k: nat)
    requires
        c < n,
        k < n,
    ensures
        visits(c, n, n, k) == 1,
        cursor_after(c, n, n) == c,
{
    lemma_split(c, n, (n - c) as nat, c, k);
    assert((n - c) as nat + c == n);
    lemma_no_wrap(c, n, (n - c) as nat, k);
    if c > 0 {
        lemma_no_wrap(0, n, c, k);
    }
}

/// Cyclic order: `i` sequential calls after the cursor stood at `c`, it stands at
/// `(c + i) % n`, so those calls hand out the keys at `c, c + 1, ...` modulo `n`, none skipped
/// or repeated within a round, starting with the key after the last one handed out.
pub proof fn lemma_cursor_cycles(c: nat, n: nat, i: nat)
    requires
        c < n,
    ensures
        cursor_after(c, n, i) == ((c + i) as int) % (n as int),
    decreases i,
{
    if i == 0 {
        lemma_small_mod(c, n);
    } else {
        let next = next_cursor(c, n);
        if c + 1 < n {
            lemma_small_mod(c + 1, n);
        } else {
            lemma_mod_self_0(n as int);
        }
        assert(next == ((c + 1) as int) % (n as int));
        lemma_cursor_cycles(next, n, (i - 1) as nat);
        lemma_add_mod_noop((c + 1) as int, i - 1, n as int);
        lemma_add_mod_noop_right(next as int, i - 1, n as int);
        assert(c + 1 + (i - 1) == c + i);
    }
}

/// Round-robin fairness: over `q` full rounds of sequential calls (`q * n` calls on `n` keys),
/// every key is handed out exactly `q` times, and the cursor ends where it started, so the
/// next round begins with the key that follows the last one handed out.
pub proof fn lemma_round_robin_fair(c: nat, n: nat, q: nat, k: nat)
    requires
        c < n,
        k < n,
    ensures
        visits(c, n, q * n, k) == q,
        cursor_after(c, n, q * n) == c,
    decreases q,
{
    if q > 0 {
        let p = (q - 1) as nat;
        let m = p * n;
        lemma_round_robin_fair(c, n, p, k);
        assert(q * n == m + n) by (nonlinear_arith)
            requires
                p == q - 1,
                m == p * n,
        ;
        lemma_split(c, n, m, n, k);
        lemma_one_round(c, n, k);
    } else {
        assert(q * n == 0) by (nonlinear_arith)
            requires
                q == 0,
        ;
    }
}

} // verus!
