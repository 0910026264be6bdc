//! Broad-phase collision detection: a spatial hash from grid cells to the ships that
//! cover them.
//!
//! Each position is quantized to a grid cell, and an entity covers the square of cells
//! within its reach around that cell. Two entities are in contact when their squares
//! share a cell. This is an approximate proximity test, not an exact intersection.
use crate::arena::{floor_div, in_arena};
use crate::vehicle::PlayerId;
use std::collections::HashMap;
use vstd::arithmetic::div_mod::lemma_fundamental_div_mod_converse;
use vstd::prelude::*;

verus! {

broadcast use vstd::std_specs::hash::group_hash_axioms;

/// The width of a grid cell in micro-units.
pub const CELL: i64 = 1_000;

/// The largest reach, in cells, that an entity may have.
pub const MAX_REACH: i64 = 64;

/// Cells with coordinates in `[-KEY_OFFSET, KEY_OFFSET)` have a key.
pub const KEY_OFFSET: i64 = 2048;

/// The number of distinct cell coordinates on one axis, `2 * KEY_OFFSET`.
pub const KEY_WIDTH: i64 = 4096;

/// The grid cell that holds a coordinate.
pub open spec fn cell_of(p: int) -> int {
    p / (CELL as int)
}

/// The cell `(a, b)` lies in the square of `reach` cells around `(cx, cy)`.
pub open spec fn in_square(a: int, b: int, cx: int, cy: int, reach: int) -> bool {
    cx - reach <= a < cx + reach && cy - reach <= b < cy + reach
}

/// The squares of reach `ka` around `(ax, ay)` and of reach `kb` around `(bx, by)`
/// share a cell; a square of reach zero is empty.
pub open spec fn squares_overlap(ax: int, ay: int, ka: int, bx: int, by: int, kb: int) -> bool {
    &&& ka > 0
    &&& kb > 0
    &&& ax - ka < bx + kb && bx - kb < ax + ka && ay - ka < by + kb && by - kb < ay + ka
}

/// The cell has a key in the hash.
pub open spec fn valid_cell(a: int, b: int) -> bool {
    -KEY_OFFSET <= a < KEY_OFFSET && -KEY_OFFSET <= b < KEY_OFFSET
}

/// A cell that can be the center of a square: the cell of a position in the arena.
pub open spec fn arena_cell(c: int) -> bool {
    -1000 <= c < 1000
}

/// The key of a cell.
pub open spec fn key_of(a: int, b: int) -> int {
    (a + KEY_OFFSET) * KEY_WIDTH + (b + KEY_OFFSET)
}

/// Which ships cover a cell.
#[derive(Clone, Copy, Debug, PartialEq, Eq, Structural)]
pub struct Occupancy {
    pub one: bool,
    pub two: bool,
}

/// A cell that no ship covers.
pub open spec fn vacant() -> Occupancy {
    Occupancy { one: false, two: false }
}

/// `o` with the ship `who` added.
pub open spec fn with_ship(o: Occupancy, who: PlayerId) -> Occupancy {
    match who {
        PlayerId::One => Occupancy { one: true, ..o },
        PlayerId::Two => Occupancy { two: true, ..o },
    }
}

/// What a cell holds after the square of `reach` around `(cx, cy)` is stamped for `who`.
pub open spec fn stamped(
    o: Occupancy,
    a: int,
    b: int,
    cx: int,
    cy: int,
    reach: int,
    who: PlayerId,
) -> Occupancy {
    if in_square(a, b, cx, cy, reach) {
        with_ship(o, who)
    } else {
        o
    }
}

/// Distinct cells have distinct keys.
proof fn lemma_key_injective(a: int, b: int, c: int, d: int)
    requires
        valid_cell(a, b),
        valid_cell(c, d),
        key_of(a, b) == key_of(c, d),
    ensures
        a == c && b == d,
{
    let k = key_of(a, b);
    lemma_fundamental_div_mod_converse(k, KEY_WIDTH as int, a + KEY_OFFSET, b + KEY_OFFSET);
    lemma_fundamental_div_mod_converse(k, KEY_WIDTH as int, c + KEY_OFFSET, d + KEY_OFFSET);
}

proof fn lemma_key_range(a: int, b: int)
    requires
        valid_cell(a, b),
    ensures
        0 <= key_of(a, b) < KEY_WIDTH * KEY_WIDTH,
{
    assert(0 <= (a + KEY_OFFSET) * KEY_WIDTH <= (KEY_WIDTH - 1) * KEY_WIDTH) by (nonlinear_arith)
        requires
            0 <= a + KEY_OFFSET < KEY_WIDTH,
    ;
}

/// The grid cell of a coordinate in the arena.
pub fn cell(p: i64) -> (r: i64)
    requires
        in_arena(p as int),
    ensures
        r == cell_of(p as int),
        arena_cell(r as int),
{
    floor_div(p as i128, CELL as i128) as i64
}

fn key(a: i64, b: i64) -> (r: u64)
    requires
        valid_cell(a as int, b as int),
    ensures
        r == key_of(a as int, b as int),
{
    proof {
        lemma_key_range(a as int, b as int);
    }
    ((a + KEY_OFFSET) * KEY_WIDTH + (b + KEY_OFFSET)) as u64
}

/// A map from cell keys to the ships that cover them.
pub struct SpatialHash {
    cells: HashMap<u64, Occupancy>,
}

impl SpatialHash {
    /// What the cell `(a, b)` holds; a cell without a key holds nothing.
    pub closed spec fn occupancy(self, a: int, b: int) -> Occupancy {
        if valid_cell(a, b) && self.cells@.contains_key(key_of(a, b) as u64) {
            self.cells@[key_of(a, b) as u64]
        } else {
            vacant()
        }
    }

    /// An empty hash.
    pub fn new() -> (r: SpatialHash)
        ensures
            forall|a: int, b: int| #[trigger] r.occupancy(a, b) == vacant(),
    {
        SpatialHash { cells: HashMap::new() }
    }

    fn lookup(&self, a: i64, b: i64) -> (r: Occupancy)
        requires
            valid_cell(a as int, b as int),
        ensures
            r == self.occupancy(a as int, b as int),
    {
        let k = key(a, b);
        match self.cells.get(&k) {
            Some(o) => *o,
            None => Occupancy { one: false, two: false },
        }
    }

    /// Marks every cell of the square of `reach` around `(cx, cy)` as covered by `who`.
    pub fn stamp(&mut self, cx: i64, cy: i64, reach: i64, who: PlayerId)
        requires
            arena_cell(cx as int),
            arena_cell(cy as int),
            0 <= reach <= MAX_REACH,
        ensures
            forall|a: int, b: int|
                #[trigger] final(self).occupancy(a, b) == stamped(
                    old(self).occupancy(a, b),
                    a,
                    b,
                    cx as int,
                    cy as int,
                    reach as int,
                    who,
                ),
    {
        let ghost start = *self;
        let mut i: i64 = -reach;
        while i < reach
            invariant
                -reach <= i <= reach,
                arena_cell(cx as int),
                arena_cell(cy as int),
                0 <= reach <= MAX_REACH,
                forall|a: int, b: int|
                    #[trigger] self.occupancy(a, b) == if cx - reach <= a < cx + i && cy - reach
                        <= b < cy + reach {
                        with_ship(start.occupancy(a, b), who)
                    } else {
                        start.occupancy(a, b)
                    },
            decreases reach - i,
        {
            let mut j: i64 = -reach;
            while j < reach
                invariant
                    -reach <= i < reach,
                    -reach <= j <= reach,
                    arena_cell(cx as int),
                    arena_cell(cy as int),
                    0 <= reach <= MAX_REACH,
                    forall|a: int, b: int|
                        #[trigger] self.occupancy(a, b) == if (cx - reach <= a < cx + i && cy
                            - reach <= b < cy + reach) || (a == cx + i && cy - reach <= b < cy
                            + j) {
                            with_ship(start.occupancy(a, b), who)
                        } else {
                            start.occupancy(a, b)
                        },
                decreases reach - j,
            {
                let a0 = cx + i;
                let b0 = cy + j;
                let old_cell = self.lookup(a0, b0);
                let new_cell = match who {
                    PlayerId::One => Occupancy { one: true, ..old_cell },
                    PlayerId::Two => Occupancy { two: true, ..old_cell },
                };
                let k = key(a0, b0);
                let ghost before = *self;
                self.cells.insert(k, new_cell);
                proof {
                    assert forall|a: int, b: int|
                        valid_cell(a, b) && !(a == a0 && b == b0) implies key_of(a, b) as u64
                        != k by {
                        lemma_key_range(a, b);
                        lemma_key_range(a0 as int, b0 as int);
                        if key_of(a, b) == key_of(a0 as int, b0 as int) {
                            lemma_key_injective(a, b, a0 as int, b0 as int);
                        }
                    }
                    assert forall|a: int, b: int|
                        !(a == a0 && b == b0) implies #[trigger] self.occupancy(a, b)
                        == before.occupancy(a, b) by {}
                }
                j = j + 1;
            }
            i = i + 1;
        }
    }

    /// Which ships cover some cell of the square of `reach` around `(cx, cy)`.
    pub fn probe(&self, cx: i64, cy: i64, reach: i64) -> (r: Occupancy)
        requires
            arena_cell(cx as int),
            arena_cell(cy as int),
            0 <= reach <= MAX_REACH,
        ensures
            r.one <==> exists|a: int, b: int|
                #[trigger] in_square(a, b, cx as int, cy as int, reach as int) && self.occupancy(
                    a,
                    b,
                ).one,
            r.two <==> exists|a: int, b: int|
                #[trigger] in_square(a, b, cx as int, cy as int, reach as int) && self.occupancy(
                    a,
                    b,
                ).two,
    {
        let mut one = false;
        let mut two = false;
        let mut i: i64 = -reach;
        while i < reach
            invariant
                -reach <= i <= reach,
                arena_cell(cx as int),
                arena_cell(cy as int),
                0 <= reach <= MAX_REACH,
                one ==> exists|a: int, b: int|
                    #[trigger] in_square(a, b, cx as int, cy as int, reach as int)
                        && self.occupancy(a, b).one,
                two ==> exists|a: int, b: int|
                    #[trigger] in_square(a, b, cx as int, cy as int, reach as int)
                        && self.occupancy(a, b).two,
                forall|a: int, b: int|
                    cx - reach <= a < cx + i && cy - reach <= b < cy + reach ==> (!one
                        ==> !(#[trigger] self.occupancy(a, b)).one) && (!two
                        ==> !self.occupancy(a, b).two),
            decreases reach - i,
        {
            let mut j: i64 = -reach;
            while j < reach
                invariant
                    -reach <= i < reach,
                    -reach <= j <= reach,
                    arena_cell(cx as int),
                    arena_cell(cy as int),
                    0 <= reach <= MAX_REACH,
                    one ==> exists|a: int, b: int|
                        #[trigger] in_square(a, b, cx as int, cy as int, reach as int)
                            && self.occupancy(a, b).one,
                    two ==> exists|a: int, b: int|
                        #[trigger] in_square(a, b, cx as int, cy as int, reach as int)
                            && self.occupancy(a, b).two,
                    forall|a: int, b: int|
                        ((cx - reach <= a < cx + i && cy - reach <= b < cy + reach) || (a == cx
                            + i && cy - reach <= b < cy + j)) ==> (!one
                            ==> !(#[trigger] self.occupancy(a, b)).one) && (!two
                            ==> !self.occupancy(a, b).two),
                decreases reach - j,
            {
                let o = self.lookup(cx + i, cy + j);
                proof {
                    assert(in_square((cx + i) as int, (cy + j) as int, cx as int, cy as int, reach as int));
                }
                if o.one {
                    one = true;
                }
                if o.two {
                    two = true;
                }
                j = j + 1;
            }
            i = i + 1;
        }
        proof {
            if !one {
                assert forall|a: int, b: int|
                    #[trigger] in_square(a, b, cx as int, cy as int, reach as int) implies !self.occupancy(a, b).one by {
                    assert(cx - reach <= a < cx + i && cy - reach <= b < cy + reach);
                }
            }
            if !two {
                assert forall|a: int, b: int|
                    #[trigger] in_square(a, b, cx as int, cy as int, reach as int) implies !self.occupancy(a, b).two by {
                    assert(cx - reach <= a < cx + i && cy - reach <= b < cy + reach);
                }
            }
        }
        Occupancy { one, two }
    }
}

/// Two squares share a cell exactly when they overlap on both axes.
pub proof fn lemma_squares_meet(ax: int, ay: int, ka: int, bx: int, by: int, kb: int)
    ensures
        (exists|a: int, b: int|
            #[trigger] in_square(a, b, ax, ay, ka) && in_square(a, b, bx, by, kb))
            <==> squares_overlap(ax, ay, ka, bx, by, kb),
{
    if squares_overlap(ax, ay, ka, bx, by, kb) {
        let a = if ax - ka < bx - kb {
            bx - kb
        } else {
            ax - ka
        };
        let b = if ay - ka < by - kb {
            by - kb
        } else {
            ay - ka
        };
        assert(in_square(a, b, ax, ay, ka) && in_square(a, b, bx, by, kb));
    }
}

/// The spatial hash of one frame: both ships stamped with the same reach.
pub struct ShipGrid {
    hash: SpatialHash,
    one_x: i64,
    one_y: i64,
    two_x: i64,
    two_y: i64,
    reach: i64,
}

impl ShipGrid {
    /// The cell of the first ship.
    pub closed spec fn one_cell(self) -> (int, int) {
        (self.one_x as int, self.one_y as int)
    }

    /// The cell of the second ship.
    pub closed spec fn two_cell(self) -> (int, int) {
        (self.two_x as int, self.two_y as int)
    }

    /// The reach of both ships.
    pub closed spec fn ship_reach(self) -> int {
        self.reach as int
    }

    /// Every cell holds exactly the ships whose square covers it.
    pub closed spec fn wf(self) -> bool {
        &&& arena_cell(self.one_x as int)
        &&& arena_cell(self.one_y as int)
        &&& arena_cell(self.two_x as int)
        &&& arena_cell(self.two_y as int)
        &&& 0 <= self.reach <= MAX_REACH
        &&& forall|a: int, b: int|
            #[trigger] self.hash.occupancy(a, b) == (Occupancy {
                one: in_square(a, b, self.one_x as int, self.one_y as int, self.reach as int),
                two: in_square(a, b, self.two_x as int, self.two_y as int, self.reach as int),
            })
    }

    /// Stamps the ship in cell `(one_x, one_y)` and the ship in cell `(two_x, two_y)`
    /// into a fresh hash.
    pub fn new(one_x: i64, one_y: i64, two_x: i64, two_y: i64, reach: i64) -> (r: ShipGrid)
        requires
            arena_cell(one_x as int),
            arena_cell(one_y as int),
            arena_cell(two_x as int),
            arena_cell(two_y as int),
            0 <= reach <= MAX_REACH,
        ensures
            r.wf(),
            r.one_cell() == (one_x as int, one_y as int),
            r.two_cell() == (two_x as int, two_y as int),
            r.ship_reach() == reach,
    {
        let mut hash = SpatialHash::new();
        hash.stamp(one_x, one_y, reach, PlayerId::One);
        hash.stamp(two_x, two_y, reach, PlayerId::Two);
        let r = ShipGrid { hash, one_x, one_y, two_x, two_y, reach };
        assert forall|a: int, b: int|
            #[trigger] r.hash.occupancy(a, b) == (Occupancy {
                one: in_square(a, b, one_x as int, one_y as int, reach as int),
                two: in_square(a, b, two_x as int, two_y as int, reach as int),
            }) by {}
        r
    }

    /// Which ships the square of `reach` around `(cx, cy)` touches.
    pub fn contacts(&self, cx: i64, cy: i64, reach: i64) -> (r: Occupancy)
        requires
            self.wf(),
            arena_cell(cx as int),
            arena_cell(cy as int),
            0 <= reach <= MAX_REACH,
        ensures
            r.one == squares_overlap(
                cx as int,
                cy as int,
                reach as int,
                self.one_cell().0,
                self.one_cell().1,
                self.ship_reach(),
            ),
            r.two == squares_overlap(
                cx as int,
                cy as int,
                reach as int,
                self.two_cell().0,
                self.two_cell().1,
                self.ship_reach(),
            ),
    {
        let r = self.hash.probe(cx, cy, reach);
        proof {
            lemma_squares_meet(
                cx as int,
                cy as int,
                reach as int,
                self.one_x as int,
                self.one_y as int,
                self.reach as int,
            );
            lemma_squares_meet(
                cx as int,
                cy as int,
                reach as int,
                self.two_x as int,
                self.two_y as int,
                self.reach as int,
            );
            if r.one {
                let (a, b) = choose|a: int, b: int|
                    #[trigger] in_square(a, b, cx as int, cy as int, reach as int)
                        && self.hash.occupancy(a, b).one;
                assert(in_square(a, b, self.one_x as int, self.one_y as int, self.reach as int));
            }
            if r.two {
                let (a, b) = choose|a: int, b: int|
                    #[trigger] in_square(a, b, cx as int, cy as int, reach as int)
                        && self.hash.occupancy(a, b).two;
                assert(in_square(a, b, self.two_x as int, self.two_y as int, self.reach as int));
            }
            if squares_overlap(cx as int, cy as int, reach as int, self.one_x as int, self.one_y as int, self.reach as int) {
                let (a, b) = choose|a: int, b: int|
                    #[trigger] in_square(a, b, cx as int, cy as int, reach as int)
                        && in_square(a, b, self.one_x as int, self.one_y as int, self.reach as int);
                assert(self.hash.occupancy(a, b).one);
            }
            if squares_overlap(cx as int, cy as int, reach as int, self.two_x as int, self.two_y as int, self.reach as int) {
                let (a, b) = choose|a: int, b: int|
                    #[trigger] in_square(a, b, cx as int, cy as int, reach as int)
                        && in_square(a, b, self.two_x as int, self.two_y as int, self.reach as int);
                assert(self.hash.occupancy(a, b).two);
            }
        }
        r
    }
}

} // verus!
