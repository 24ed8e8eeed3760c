use vstd::arithmetic::div_mod::{
    lemma_fundamental_div_mod, lemma_mod_add_multiples_vanish, lemma_mod_bound,
    lemma_mod_multiples_vanish, lemma_small_mod, lemma_sub_mod_noop,
};
use vstd::arithmetic::mul::lemma_mul_is_distributive_add;
use vstd::prelude::*;

use crate::direction::Direction;

verus! {

/// One position on a fixed-size grid: a row index and a column index.
///
/// An `Address` is always interpreted relative to a grid of some
/// `(height, width)`; it is valid when both indices lie inside those bounds.
/// Wraparound stepping (`find_neighbor`) is the one movement primitive and
/// preserves validity.
#[derive(Copy, Clone, PartialEq, Eq, Structural, Debug)]
pub struct Address {
    pub row: usize,
    pub column: usize,
}

/// The index reached from `x` after `n` wraparound steps towards lower
/// indices on a cycle of length `m`.
pub open spec fn wrap_sub(x: int, n: int, m: int) -> int {
    (x - n) % m
}

/// The index reached from `x` after `n` wraparound steps towards higher
/// indices on a cycle of length `m`.
pub open spec fn wrap_add(x: int, n: int, m: int) -> int {
    (x + n) % m
}

/// One more downward wraparound step from `wrap_sub(x, n, m)` lands on
/// `wrap_sub(x, n + 1, m)`.
pub proof fn lemma_wrap_sub_step(x: int, n: int, m: int)
    requires
        m >= 1,
    ensures
        0 <= wrap_sub(x, n, m) < m,
        wrap_sub(x, n + 1, m) == if wrap_sub(x, n, m) == 0 {
            m - 1
        } else {
            wrap_sub(x, n, m) - 1
        },
{
    let r = (x - n) % m;
    lemma_mod_bound(x - n, m);
    lemma_sub_mod_noop(x - n, 1, m);
    if m == 1 {
        lemma_small_mod(0, 1);
    } else {
        lemma_small_mod(1, m as nat);
        if r == 0 {
            lemma_mod_add_multiples_vanish(-1, m);
            lemma_small_mod((m - 1) as nat, m as nat);
        } else {
            lemma_small_mod((r - 1) as nat, m as nat);
        }
    }
}

/// One more upward wraparound step from `wrap_add(x, n, m)` lands on
/// `wrap_add(x, n + 1, m)`.
pub proof fn lemma_wrap_add_step(x: int, n: int, m: int)
    requires
        m >= 1,
    ensures
        0 <= wrap_add(x, n, m) < m,
        wrap_add(x, n + 1, m) == if wrap_add(x, n, m) == m - 1 {
            0
        } else {
            wrap_add(x, n, m) + 1
        },
{
    let r = (x + n) % m;
    lemma_mod_bound(x + n, m);
    lemma_fundamental_div_mod(x + n, m);
    let q = (x + n) / m;
    if r == m - 1 {
        assert(m * (q + 1) == m * q + m) by {
            lemma_mul_is_distributive_add(m, q, 1);
        }
        lemma_mod_multiples_vanish(q + 1, 0, m);
        lemma_small_mod(0, m as nat);
    } else {
        lemma_mod_multiples_vanish(q, r + 1, m);
        lemma_small_mod((r + 1) as nat, m as nat);
    }
}

/// The straight-line (non-toroidal) Manhattan distance between two
/// addresses: the per-axis absolute differences, added.
pub open spec fn spec_manhattan(a: Address, b: Address) -> nat {
    ((if a.row >= b.row {
        a.row - b.row
    } else {
        b.row - a.row
    }) + (if a.column >= b.column {
        a.column - b.column
    } else {
        b.column - a.column
    })) as nat
}

impl Address {
    /// Both indices lie inside a grid of the given extents.
    pub open spec fn valid(self, height: nat, width: nat) -> bool {
        self.row < height && self.column < width
    }

    /// The address one wraparound step away in the given direction.
    pub open spec fn spec_neighbor(self, direction: Direction, height: nat, width: nat) -> Address {
        match direction {
            Direction::Down => Address {
                row: if self.row + 1 == height {
                    0
                } else {
                    (self.row + 1) as usize
                },
                column: self.column,
            },
            Direction::Up => Address {
                row: if self.row == 0 {
                    (height - 1) as usize
                } else {
                    (self.row - 1) as usize
                },
                column: self.column,
            },
            Direction::Right => Address {
                row: self.row,
                column: if self.column + 1 == width {
                    0
                } else {
                    (self.column + 1) as usize
                },
            },
            Direction::Left => Address {
                row: self.row,
                column: if self.column == 0 {
                    (width - 1) as usize
                } else {
                    (self.column - 1) as usize
                },
            },
        }
    }

    pub fn new(row: usize, column: usize) -> (r: Address)
        ensures
            r.row == row,
            r.column == column,
    {
        Address { row, column }
    }

    /// Moves one step in `direction` with wraparound: stepping past an edge
    /// re-enters the grid from the opposite edge. The orthogonal index is
    /// untouched, so a valid address always yields a valid neighbor.
    pub fn find_neighbor(&self, direction: Direction, height: usize, width: usize) -> (r: Address)
        requires
            self.valid(height as nat, width as nat),
        ensures
            r == self.spec_neighbor(direction, height as nat, width as nat),
            r.valid(height as nat, width as nat),
    {
        match direction {
            Direction::Down => {
                if self.row == height - 1 {
                    return Address::new(0, self.column);
                }
                return Address::new(self.row + 1, self.column);
            },
            Direction::Up => {
                if self.row == 0 {
                    return Address::new(height - 1, self.column);
                }
                return Address::new(self.row - 1, self.column);
            },
            Direction::Right => {
                if self.column == width - 1 {
                    return Address::new(self.row, 0);
                }
                return Address::new(self.row, self.column + 1);
            },
            Direction::Left => {
                if self.column == 0 {
                    return Address::new(self.row, width - 1);
                }
                return Address::new(self.row, self.column - 1);
            },
        }
    }

    /// The straight-line Manhattan distance to `address`, with per-axis
    /// non-negative subtraction. Deliberately ignores wraparound: it is the
    /// distance on the unwrapped grid, not the toroidal shortest path.
    pub fn get_usize_radius(&self, address: Address) -> (r: usize)
        requires
            spec_manhattan(*self, address) <= usize::MAX,
        ensures
            r == spec_manhattan(*self, address),
    {
        let x: usize;
        if self.column > address.column {
            x = self.column - address.column;
        } else {
            x = address.column - self.column;
        }
        let y: usize;
        if self.row > address.row {
            y = self.row - address.row;
        } else {
            y = address.row - self.row;
        }
        x + y
    }
}

impl Default for Address {
    /// The origin: row 0, column 0.
    fn default() -> (r: Address)
        ensures
            r.row == 0,
            r.column == 0,
    {
        Address { row: 0, column: 0 }
    }
}

/// Law: stepping down then up, up then down, right then left, or left then
/// right returns to the starting address, on any grid with `height >= 1` and
/// `width >= 1` that the address is valid on.
pub proof fn lemma_neighbor_inverse(a: Address, height: nat, width: nat)
    requires
        a.valid(height, width),
        height <= usize::MAX,
        width <= usize::MAX,
    ensures
        a.spec_neighbor(Direction::Down, height, width).spec_neighbor(
            Direction::Up,
            height,
            width,
        ) == a,
        a.spec_neighbor(Direction::Up, height, width).spec_neighbor(
            Direction::Down,
            height,
            width,
        ) == a,
        a.spec_neighbor(Direction::Right, height, width).spec_neighbor(
            Direction::Left,
            height,
            width,
        ) == a,
        a.spec_neighbor(Direction::Left, height, width).spec_neighbor(
            Direction::Right,
            height,
            width,
        ) == a,
{
}

/// Law: the Manhattan distance is symmetric in its two addresses.
pub proof fn lemma_manhattan_symmetric(a: Address, b: Address)
    ensures
        spec_manhattan(a, b) == spec_manhattan(b, a),
{
}

/// Law: the Manhattan distance from an address to itself is zero.
pub proof fn lemma_manhattan_self(a: Address)
    ensures
        spec_manhattan(a, a) == 0,
{
}

} // verus!
