//! Properties that relate several operations of the engine.
use crate::arena::UNIT;
use crate::game::{flying, spent, struck, survivors, Config, GameState, Torpedo};
use crate::spatial::{squares_overlap, stamped, SpatialHash};
use crate::vehicle::{PlayerId, Vehicle};
use vstd::arithmetic::div_mod::lemma_small_mod;
use vstd::prelude::*;

verus! {

/// The spatial hash does not depend on the order in which entities are stamped: stamping
/// square `A` then square `B` leaves every cell as stamping `B` then `A` does. Whether two
/// squares are in contact reads the same from either side.
pub proof fn lemma_stamp_order_irrelevant(
    start: SpatialHash,
    a_then: SpatialHash,
    a_then_b: SpatialHash,
    b_then: SpatialHash,
    b_then_a: SpatialHash,
    ax: int,
    ay: int,
    ka: int,
    wa: PlayerId,
    bx: int,
    by: int,
    kb: int,
    wb: PlayerId,
)
    requires
        forall|x: int, y: int|
            #[trigger] a_then.occupancy(x, y) == stamped(start.occupancy(x, y), x, y, ax, ay, ka, wa),
        forall|x: int, y: int|
            #[trigger] a_then_b.occupancy(x, y) == stamped(a_then.occupancy(x, y), x, y, bx, by, kb, wb),
        forall|x: int, y: int|
            #[trigger] b_then.occupancy(x, y) == stamped(start.occupancy(x, y), x, y, bx, by, kb, wb),
        forall|x: int, y: int|
            #[trigger] b_then_a.occupancy(x, y) == stamped(b_then.occupancy(x, y), x, y, ax, ay, ka, wa),
    ensures
        forall|x: int, y: int| #[trigger] a_then_b.occupancy(x, y) == b_then_a.occupancy(x, y),
        squares_overlap(ax, ay, ka, bx, by, kb) == squares_overlap(bx, by, kb, ax, ay, ka),
{
    assert forall|x: int, y: int| #[trigger] a_then_b.occupancy(x, y) == b_then_a.occupancy(x, y) by {
        assert(a_then.occupancy(x, y) == stamped(start.occupancy(x, y), x, y, ax, ay, ka, wa));
        assert(b_then.occupancy(x, y) == stamped(start.occupancy(x, y), x, y, bx, by, kb, wb));
    }
}

/// No torpedo that strikes a ship survives its frame.
pub proof fn lemma_survivors_unspent(ts: Seq<Torpedo>, cfg: Config, one: Vehicle, two: Vehicle)
    ensures
        forall|k: int|
            0 <= k < survivors(ts, cfg, one, two).len() ==> !spent(
                cfg,
                #[trigger] survivors(ts, cfg, one, two)[k],
                one,
                two,
            ),
    decreases ts.len(),
{
    if ts.len() > 0 {
        let rest = survivors(ts.drop_last(), cfg, one, two);
        lemma_survivors_unspent(ts.drop_last(), cfg, one, two);
        if !spent(cfg, ts.last(), one, two) {
            assert forall|k: int| 0 <= k < rest.len() + 1 implies !spent(
                cfg,
                #[trigger] rest.push(ts.last())[k],
                one,
                two,
            ) by {
                if k < rest.len() {
                    assert(rest.push(ts.last())[k] == rest[k]);
                }
            }
        }
    }
}

/// A kill is reported for one frame only: when a frame of `before` records a kill and
/// leaves the state `after`, the next frame records none unless one of its own torpedoes
/// strikes a ship.
pub proof fn lemma_kill_cleared(before: GameState, first: int, after: GameState, second: int)
    requires
        before.frame_kill(first).is_some(),
        after.last_kill_event == before.frame_kill(first),
        after.config == before.config,
        after.player_one == before.next_one(first),
        after.player_two == before.next_two(first),
        after.torpedoes@ == survivors(
            before.in_flight(first),
            before.config,
            before.next_one(first),
            before.next_two(first),
        ),
        !after.fatal_contact(second),
        !struck(after.in_flight(second), after.config, after.next_one(second), PlayerId::One),
        !struck(after.in_flight(second), after.config, after.next_two(second), PlayerId::Two),
    ensures
        after.frame_kill(second).is_none(),
{
}

/// A body in the arena stays where it is over a span of zero.
pub proof fn lemma_still_frame(v: Vehicle)
    requires
        v.in_bounds(),
    ensures
        v.integrated(0) == v,
        v.coasted(0) == Some(v),
{
    assert(v.vx * 0 == 0 && v.vy * 0 == 0);
    lemma_small_mod((v.x + UNIT) as nat, 2 * UNIT as nat);
    lemma_small_mod((v.y + UNIT) as nat, 2 * UNIT as nat);
}

proof fn lemma_flying_still(ts: Seq<Torpedo>)
    requires
        forall|k: int| 0 <= k < ts.len() ==> (#[trigger] ts[k]).body.in_bounds(),
    ensures
        flying(ts, 0) == ts,
    decreases ts.len(),
{
    if ts.len() > 0 {
        let init = ts.drop_last();
        assert forall|k: int| 0 <= k < init.len() implies (#[trigger] init[k]).body.in_bounds() by {
            assert(init[k] == ts[k]);
        }
        lemma_flying_still(init);
        lemma_still_frame(ts.last().body);
        assert(init.push(ts.last()) =~= ts);
    }
}

proof fn lemma_unspent_not_struck(ts: Seq<Torpedo>, cfg: Config, one: Vehicle, two: Vehicle)
    requires
        forall|k: int| 0 <= k < ts.len() ==> !spent(cfg, #[trigger] ts[k], one, two),
    ensures
        !struck(ts, cfg, one, PlayerId::One),
        !struck(ts, cfg, two, PlayerId::Two),
    decreases ts.len(),
{
    if ts.len() > 0 {
        let init = ts.drop_last();
        assert forall|k: int| 0 <= k < init.len() implies !spent(cfg, #[trigger] init[k], one, two) by {
            assert(init[k] == ts[k]);
        }
        lemma_unspent_not_struck(init, cfg, one, two);
        assert(!spent(cfg, ts[ts.len() - 1], one, two));
    }
}

/// A torpedo's kill is never reported twice: right after a frame, a frame of zero span
/// records no kill, because every torpedo that struck a ship has left, unless the ships
/// themselves are in a fatal collision.
pub proof fn lemma_kill_not_repeated(before: GameState, first: int, after: GameState)
    requires
        before.wf(),
        after.wf(),
        after.config == before.config,
        after.player_one == before.next_one(first),
        after.player_two == before.next_two(first),
        after.torpedoes@ == survivors(
            before.in_flight(first),
            before.config,
            before.next_one(first),
            before.next_two(first),
        ),
        !after.fatal_contact(0),
    ensures
        after.frame_kill(0).is_none(),
{
    lemma_still_frame(after.player_one);
    lemma_still_frame(after.player_two);
    lemma_flying_still(after.torpedoes@);
    lemma_survivors_unspent(
        before.in_flight(first),
        before.config,
        before.next_one(first),
        before.next_two(first),
    );
    lemma_unspent_not_struck(after.torpedoes@, after.config, after.player_one, after.player_two);
}

} // verus!
