//! Symmetric matrices, such as the rotational inertia and the added mass
//! of a link.
//!
//! Only the upper triangle is kept, column by column, so that the entry at
//! `(r, c)` and the entry at `(c, r)` are one and the same stored value.

use vstd::prelude::*;

verus! {

/// Number of entries in the upper triangle of a matrix of order `n`,
/// the diagonal included: column `k` holds `k + 1` of them.
pub open spec fn triangle(n: int) -> int
    decreases n,
{
    if n <= 0 {
        0
    } else {
        triangle(n - 1) + n
    }
}

/// Place of the entry `(r, c)` in the packed upper triangle.
pub open spec fn packed(r: int, c: int) -> int {
    if r <= c {
        triangle(c) + r
    } else {
        triangle(r) + c
    }
}

/// The triangle of order `n` has `n (n + 1) / 2` entries.
pub proof fn lemma_triangle_closed(n: int)
    requires
        n >= 0,
    ensures
        2 * triangle(n) == n * (n + 1),
    decreases n,
{
    if n > 0 {
        lemma_triangle_closed(n - 1);
        assert((n - 1) * ((n - 1) + 1) + 2 * n == n * (n + 1)) by (nonlinear_arith);
    } else {
        assert(n * (n + 1) == 0) by (nonlinear_arith)
            requires
                n == 0,
        ;
    }
}

/// The triangle grows with the order.
pub proof fn lemma_triangle_grows(m: int, n: int)
    requires
        0 <= m <= n,
    ensures
        0 <= triangle(m) <= triangle(n),
    decreases n,
{
    if m < n {
        lemma_triangle_grows(m, n - 1);
    } else if n > 0 {
        lemma_triangle_grows(m - 1, n - 1);
    }
}

/// Every entry of a matrix of order `n` has its place in the triangle.
pub proof fn lemma_packed_in_range(n: int, r: int, c: int)
    requires
        0 <= r < n,
        0 <= c < n,
    ensures
        0 <= packed(r, c) < triangle(n),
        packed(r, c) == packed(c, r),
{
    let hi = if r <= c {
        c
    } else {
        r
    };
    lemma_triangle_grows(0, hi);
    lemma_triangle_grows(hi + 1, n);
}

/// Two entries share a place only where they mirror each other.
pub proof fn lemma_packed_distinct(r1: int, c1: int, r2: int, c2: int)
    requires
        0 <= r1,
        0 <= c1,
        0 <= r2,
        0 <= c2,
        packed(r1, c1) == packed(r2, c2),
    ensures
        (r1 == r2 && c1 == c2) || (r1 == c2 && c1 == r2),
{
    let hi1 = if r1 <= c1 {
        c1
    } else {
        r1
    };
    let hi2 = if r2 <= c2 {
        c2
    } else {
        r2
    };
    lemma_triangle_grows(0, hi1);
    lemma_triangle_grows(0, hi2);
    if hi1 < hi2 {
        lemma_triangle_grows(hi1 + 1, hi2);
    }
    if hi2 < hi1 {
        lemma_triangle_grows(hi2 + 1, hi1);
    }
}

/// Counts the entries of the upper triangle of a matrix of order `n`;
/// `None` where there are more than the machine can index.
pub fn triangle_of(n: usize) -> (r: Option<usize>)
    ensures
        r == if triangle(n as int) <= usize::MAX {
            Some(triangle(n as int) as usize)
        } else {
            None
        },
{
    proof {
        lemma_triangle_closed(n as int);
    }
    if n == usize::MAX {
        proof {
            lemma_triangle_grows(1, n - 1);
            assert(triangle(0) == 0);
            assert(triangle(1) == 1);
        }
        return None;
    }
    if n % 2 == 0 {
        let k: usize = n / 2;
        proof {
            assert(2 * (k * (n + 1)) == n * (n + 1)) by (nonlinear_arith)
                requires
                    n == 2 * k,
            ;
        }
        k.checked_mul(n + 1)
    } else {
        let k: usize = n / 2 + 1;
        proof {
            assert(2 * (n * k) == n * (n + 1)) by (nonlinear_arith)
                requires
                    n + 1 == 2 * k,
            ;
        }
        n.checked_mul(k)
    }
}

/// A symmetric matrix with entries of type `T`.
#[derive(Debug)]
pub struct Symmetric<T> {
    order: usize,
    upper: Vec<T>,
}

impl<T> Symmetric<T> {
    #[verifier::type_invariant]
    spec fn packed_whole(self) -> bool {
        self.upper.len() == triangle(self.order as int)
    }

    /// Number of rows, and of columns.
    pub closed spec fn spec_order(self) -> nat {
        self.order as nat
    }

    /// The entry at `(r, c)`.
    pub closed spec fn entry(self, r: int, c: int) -> T {
        self.upper[packed(r, c)]
    }

    /// The matrix as its rows.
    pub open spec fn rows(self) -> Seq<Seq<T>> {
        Seq::new(self.spec_order(), |r: int| Seq::new(self.spec_order(), |c: int| self.entry(r, c)))
    }

    /// Number of rows, and of columns.
    pub fn order(&self) -> (n: usize)
        ensures
            n == self.spec_order(),
    {
        self.order
    }

    /// The matrix is its own transpose.
    pub proof fn lemma_mirror(self, r: int, c: int)
        ensures
            self.entry(r, c) == self.entry(c, r),
    {
    }
}

impl<T: Copy> Symmetric<T> {
    /// The matrix of order `order` with `value` in every entry; `None`
    /// where its triangle is larger than the machine can index.
    pub fn filled(order: usize, value: T) -> (r: Option<Symmetric<T>>)
        ensures
            match r {
                Some(m) => {
                    &&& m.spec_order() == order
                    &&& triangle(order as int) <= usize::MAX
                    &&& forall|i: int, j: int|
                        0 <= i < order && 0 <= j < order ==> m.entry(i, j) == value
                },
                None => triangle(order as int) > usize::MAX,
            },
    {
        let len: usize = match triangle_of(order) {
            Some(len) => len,
            None => {
                return None;
            },
        };
        proof {
            lemma_triangle_grows(0, order as int);
        }
        let mut upper: Vec<T> = Vec::new();
        while upper.len() < len
            invariant
                upper.len() <= len,
                len == triangle(order as int),
                forall|i: int| 0 <= i < upper.len() ==> upper[i] == value,
            decreases len - upper.len(),
        {
            upper.push(value);
        }
        let m = Symmetric { order, upper };
        proof {
            assert forall|i: int, j: int| 0 <= i < order && 0 <= j < order implies m.entry(i, j)
                == value by {
                lemma_packed_in_range(order as int, i, j);
            }
        }
        Some(m)
    }

    /// The entry at `(r, c)`; `None` where the matrix has no such entry.
    pub fn get(&self, r: usize, c: usize) -> (e: Option<T>)
        ensures
            e == if r < self.spec_order() && c < self.spec_order() {
                Some(self.entry(r as int, c as int))
            } else {
                None
            },
    {
        if r >= self.order || c >= self.order {
            return None;
        }
        let at: usize = self.place(r, c);
        Some(self.upper[at])
    }

    /// Puts `value` at `(r, c)` and at `(c, r)`, and leaves every other
    /// entry as it is.  Returns whether the matrix has such an entry; where
    /// it has not, nothing changes.
    pub fn set(&mut self, r: usize, c: usize, value: T) -> (done: bool)
        ensures
            done <==> r < old(self).spec_order() && c < old(self).spec_order(),
            final(self).spec_order() == old(self).spec_order(),
            forall|i: int, j: int|
                0 <= i < old(self).spec_order() && 0 <= j < old(self).spec_order()
                    ==> final(self).entry(i, j) == if done && ((i == r && j == c) || (i == c && j
                    == r)) {
                    value
                } else {
                    old(self).entry(i, j)
                },
    {
        if r >= self.order || c >= self.order {
            return false;
        }
        let at: usize = self.place(r, c);
        proof {
            use_type_invariant(&*self);
        }
        let ghost before = self.upper@;
        self.upper[at] = value;
        proof {
            assert forall|i: int, j: int|
                0 <= i < self.order && 0 <= j < self.order implies self.upper@[packed(i, j)] == if (
                i == r && j == c) || (i == c && j == r) {
                value
            } else {
                before[packed(i, j)]
            } by {
                lemma_packed_in_range(self.order as int, i, j);
                if packed(i, j) == at {
                    lemma_packed_distinct(i, j, r as int, c as int);
                }
            }
        }
        true
    }

    /// The matrix as the list of its rows.
    pub fn to_rows(&self) -> (m: Vec<Vec<T>>)
        ensures
            m.len() == self.spec_order(),
            forall|r: int| 0 <= r < m.len() ==> (#[trigger] m[r])@ == self.rows()[r],
    {
        let mut m: Vec<Vec<T>> = Vec::new();
        let mut r: usize = 0;
        while r < self.order
            invariant
                r <= self.order,
                m.len() == r,
                forall|i: int| 0 <= i < r ==> (#[trigger] m[i])@ == self.rows()[i],
            decreases self.order - r,
        {
            let mut row: Vec<T> = Vec::new();
            let mut c: usize = 0;
            while c < self.order
                invariant
                    r < self.order,
                    c <= self.order,
                    row.len() == c,
                    forall|j: int| 0 <= j < c ==> row[j] == self.entry(r as int, j),
                decreases self.order - c,
            {
                let at: usize = self.place(r, c);
                proof {
                    use_type_invariant(self);
                }
                row.push(self.upper[at]);
                c += 1;
            }
            assert(row@ =~= self.rows()[r as int]);
            m.push(row);
            r += 1;
        }
        m
    }

    /// Place of the entry `(r, c)` in the packed triangle.
    fn place(&self, r: usize, c: usize) -> (at: usize)
        requires
            r < self.spec_order(),
            c < self.spec_order(),
        ensures
            at == packed(r as int, c as int),
            at < self.upper.len(),
    {
        proof {
            use_type_invariant(self);
            lemma_packed_in_range(self.order as int, r as int, c as int);
        }
        let (lo, hi) = if r <= c {
            (r, c)
        } else {
            (c, r)
        };
        proof {
            lemma_triangle_grows(hi + 1, self.order as int);
            lemma_triangle_closed(hi as int);
            if hi % 2 == 0 {
                let k = hi / 2;
                assert(2 * (k * (hi + 1)) == hi * (hi + 1)) by (nonlinear_arith)
                    requires
                        hi == 2 * k,
                ;
            } else {
                let k = (hi + 1) / 2;
                assert(2 * (hi * k) == hi * (hi + 1)) by (nonlinear_arith)
                    requires
                        hi + 1 == 2 * k,
                ;
            }
        }
        let half: usize = if hi % 2 == 0 {
            (hi / 2) * (hi + 1)
        } else {
            hi * ((hi + 1) / 2)
        };
        half + lo
    }
}

} // verus!
