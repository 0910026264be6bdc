//! The game state container: two ships, the torpedoes in flight, input intents and the
//! per-frame pipeline of integration, collision detection and resolution.
use crate::clock::Instant;
use crate::spatial::{cell, cell_of, squares_overlap, ShipGrid, MAX_REACH};
use crate::vehicle::{Heading, PlayerId, Vehicle};
use vstd::prelude::*;

verus! {

/// Tunable rules of the game.
#[derive(Clone, Copy, Debug, PartialEq, Eq, Structural)]
pub struct Config {
    /// Micro-radians turned by one rotate intent.
    pub rotation_step: i64,
    /// Speed, in micro-units per second, that one thrust intent adds along the heading.
    pub thrust_impulse: u64,
    /// Speed, in micro-units per second, that a torpedo gets along the heading on top
    /// of its ship's velocity.
    pub torpedo_impulse: u64,
    /// Collision reach of a ship, in grid cells.
    pub ship_reach: i64,
    /// Collision reach of a torpedo, in grid cells.
    pub torpedo_reach: i64,
    /// Whether a torpedo can strike the ship that fired it.
    pub friendly_fire: bool,
    /// Whether ships that touch are both killed, rather than only reported as colliding.
    pub fatal_collisions: bool,
}

impl Config {
    /// Turns are not negative and both reaches fit the spatial hash.
    pub open spec fn wf(self) -> bool {
        &&& 0 <= self.rotation_step
        &&& 0 <= self.ship_reach <= MAX_REACH
        &&& 0 <= self.torpedo_reach <= MAX_REACH
    }

    /// The rules of the local two-player game: turns of 0.1 rad, thrust of 0.08 and
    /// torpedo impulse of 0.34 arena units per second, reaches of ten and five cells,
    /// torpedoes that strike any ship, and ship collisions that kill nobody.
    pub fn classic() -> (r: Config)
        ensures
            r.wf(),
            r == (Config {
                rotation_step: 100_000,
                thrust_impulse: 80_000,
                torpedo_impulse: 340_000,
                ship_reach: 10,
                torpedo_reach: 5,
                friendly_fire: true,
                fatal_collisions: false,
            }),
    {
        Config {
            rotation_step: 100_000,
            thrust_impulse: 80_000,
            torpedo_impulse: 340_000,
            ship_reach: 10,
            torpedo_reach: 5,
            friendly_fire: true,
            fatal_collisions: false,
        }
    }
}

/// A decoded input event for one ship. Thrust and fire carry the unit heading of the
/// ship's current orientation.
#[derive(Clone, Copy, Debug, PartialEq, Eq, Structural)]
pub enum Intent {
    RotateLeft,
    RotateRight,
    Thrust(Heading),
    Fire(Heading),
}

/// A torpedo in flight and the ship that fired it.
#[derive(Clone, Copy, Debug, PartialEq, Eq, Structural)]
pub struct Torpedo {
    pub body: Vehicle,
    pub owner: PlayerId,
}

/// A ship struck by a torpedo, and where it was.
#[derive(Clone, Copy, Debug, PartialEq, Eq, Structural)]
pub struct Kill {
    pub player: PlayerId,
    pub x: i64,
    pub y: i64,
}

/// A read-only copy of a body's position and orientation.
#[derive(Clone, Copy, Debug, PartialEq, Eq, Structural)]
pub struct EntitySnapshot {
    pub x: i64,
    pub y: i64,
    pub orientation: i64,
}

/// What one frame produced, for the renderer.
#[derive(Debug)]
pub struct FrameReport {
    pub ship_one: EntitySnapshot,
    pub ship_two: EntitySnapshot,
    pub torpedoes: Vec<EntitySnapshot>,
    pub kill_event: Option<Kill>,
    pub vehicle_collision: bool,
}

/// The snapshot of a body.
pub open spec fn snapshot_of(v: Vehicle) -> EntitySnapshot {
    EntitySnapshot { x: v.x, y: v.y, orientation: v.orientation }
}

/// The ship after it handles `intent` under `cfg`.
pub open spec fn steered(ship: Vehicle, intent: Intent, cfg: Config) -> Vehicle {
    match intent {
        Intent::RotateLeft => ship.turned(cfg.rotation_step as int),
        Intent::RotateRight => ship.turned(-(cfg.rotation_step as int)),
        Intent::Thrust(h) => ship.pushed(h, cfg.thrust_impulse as int),
        Intent::Fire(_) => ship,
    }
}

/// The torpedo that `intent` launches from `ship`, if any: it starts at the ship's
/// position and orientation, with the ship's velocity plus the torpedo impulse.
pub open spec fn launched(ship: Vehicle, intent: Intent, cfg: Config, owner: PlayerId) -> Option<
    Torpedo,
> {
    match intent {
        Intent::Fire(h) => Some(Torpedo { body: ship.pushed(h, cfg.torpedo_impulse as int), owner }),
        _ => None,
    }
}

/// A frame span that is never negative: a span below zero, from timer jitter, counts
/// as zero.
pub open spec fn frame_span(dt: int) -> int {
    if dt < 0 {
        0
    } else {
        dt
    }
}

/// The torpedoes still inside the arena after `dt` microseconds of straight flight, in
/// their order; one that leaves the arena is gone.
pub open spec fn flying(ts: Seq<Torpedo>, dt: int) -> Seq<Torpedo>
    decreases ts.len(),
{
    if ts.len() == 0 {
        Seq::empty()
    } else {
        let rest = flying(ts.drop_last(), dt);
        match ts.last().body.coasted(dt) {
            Some(b) => rest.push(Torpedo { body: b, owner: ts.last().owner }),
            None => rest,
        }
    }
}

/// The torpedo `t` strikes the ship `who` at `ship`: their squares of grid cells meet,
/// and the ship is not the torpedo's own unless friendly fire is on.
pub open spec fn strikes(cfg: Config, t: Torpedo, ship: Vehicle, who: PlayerId) -> bool {
    &&& (cfg.friendly_fire || t.owner != who)
    &&& squares_overlap(
        cell_of(t.body.x as int),
        cell_of(t.body.y as int),
        cfg.torpedo_reach as int,
        cell_of(ship.x as int),
        cell_of(ship.y as int),
        cfg.ship_reach as int,
    )
}

/// The torpedo strikes either ship.
pub open spec fn spent(cfg: Config, t: Torpedo, one: Vehicle, two: Vehicle) -> bool {
    strikes(cfg, t, one, PlayerId::One) || strikes(cfg, t, two, PlayerId::Two)
}

/// The torpedoes that strike no ship, in their order.
pub open spec fn survivors(ts: Seq<Torpedo>, cfg: Config, one: Vehicle, two: Vehicle) -> Seq<
    Torpedo,
>
    decreases ts.len(),
{
    if ts.len() == 0 {
        Seq::empty()
    } else {
        let rest = survivors(ts.drop_last(), cfg, one, two);
        if spent(cfg, ts.last(), one, two) {
            rest
        } else {
            rest.push(ts.last())
        }
    }
}

/// Some torpedo of `ts` strikes the ship `who` at `ship`.
pub open spec fn struck(ts: Seq<Torpedo>, cfg: Config, ship: Vehicle, who: PlayerId) -> bool
    decreases ts.len(),
{
    ts.len() > 0 && (struck(ts.drop_last(), cfg, ship, who) || strikes(cfg, ts.last(), ship, who))
}

/// The two ships' squares of grid cells meet.
pub open spec fn ships_touch(cfg: Config, one: Vehicle, two: Vehicle) -> bool {
    squares_overlap(
        cell_of(two.x as int),
        cell_of(two.y as int),
        cfg.ship_reach as int,
        cell_of(one.x as int),
        cell_of(one.y as int),
        cfg.ship_reach as int,
    )
}

/// The kill of a frame: player one's ship when it is struck, else player two's when it
/// is struck, else none.
pub open spec fn kill_of(one: Vehicle, two: Vehicle, one_struck: bool, two_struck: bool) -> Option<
    Kill,
> {
    if one_struck {
        Some(Kill { player: PlayerId::One, x: one.x, y: one.y })
    } else if two_struck {
        Some(Kill { player: PlayerId::Two, x: two.x, y: two.y })
    } else {
        None
    }
}

/// The root aggregate: the single owner of every entity.
pub struct GameState {
    pub config: Config,
    pub player_one: Vehicle,
    pub player_two: Vehicle,
    pub torpedoes: Vec<Torpedo>,
    pub start_time: Instant,
    pub last_kill_event: Option<Kill>,
}

impl GameState {
    /// The configuration is valid and every body lies in the arena.
    pub open spec fn wf(self) -> bool {
        &&& self.config.wf()
        &&& self.player_one.in_bounds()
        &&& self.player_two.in_bounds()
        &&& forall|k: int|
            0 <= k < self.torpedoes@.len() ==> (#[trigger] self.torpedoes@[k]).body.in_bounds()
    }

    /// The ship of `player`.
    pub open spec fn ship(self, player: PlayerId) -> Vehicle {
        match player {
            PlayerId::One => self.player_one,
            PlayerId::Two => self.player_two,
        }
    }

    /// A new game: player one at `(0.341, 0.283)` facing 0.3 rad, player two at
    /// `(-0.4, -0.4)` facing -0.3 rad, both at rest, and no torpedo in flight.
    pub fn new(config: Config, start_time: Instant) -> (r: GameState)
        requires
            config.wf(),
        ensures
            r.wf(),
            r.config == config,
            r.start_time == start_time,
            r.player_one == (Vehicle { x: 341_000, y: 283_000, orientation: 300_000, vx: 0, vy: 0 }),
            r.player_two == (Vehicle {
                x: -400_000i64,
                y: -400_000i64,
                orientation: -300_000i64,
                vx: 0,
                vy: 0,
            }),
            r.torpedoes@.len() == 0,
            r.last_kill_event.is_none(),
    {
        GameState {
            config,
            player_one: Vehicle { x: 341_000, y: 283_000, orientation: 300_000, vx: 0, vy: 0 },
            player_two: Vehicle { x: -400_000, y: -400_000, orientation: -300_000, vx: 0, vy: 0 },
            torpedoes: Vec::new(),
            start_time,
            last_kill_event: None,
        }
    }

    /// Microseconds since the session started, as of `now`; zero if `now` is earlier.
    pub fn elapsed(&self, now: Instant) -> (r: u64)
        ensures
            r == if now.0 >= self.start_time.0 {
                now.0 - self.start_time.0
            } else {
                0
            },
    {
        now.duration_since(self.start_time)
    }

    /// Applies one input intent of `player`: a turn, a thrust that adds to the ship's
    /// momentum, or a shot that appends a torpedo. Nothing else changes.
    pub fn apply_input(&mut self, player: PlayerId, intent: Intent)
        requires
            old(self).wf(),
        ensures
            final(self).wf(),
            final(self).ship(player) == steered(old(self).ship(player), intent, old(self).config),
            final(self).ship(other(player)) == old(self).ship(other(player)),
            final(self).torpedoes@ == match launched(
                old(self).ship(player),
                intent,
                old(self).config,
                player,
            ) {
                Some(t) => old(self).torpedoes@.push(t),
                None => old(self).torpedoes@,
            },
            final(self).config == old(self).config,
            final(self).start_time == old(self).start_time,
            final(self).last_kill_event == old(self).last_kill_event,
    {
        let cfg = self.config;
        let mut ship = match player {
            PlayerId::One => self.player_one,
            PlayerId::Two => self.player_two,
        };
        match intent {
            Intent::RotateLeft => ship.rotate(cfg.rotation_step),
            Intent::RotateRight => ship.rotate(-cfg.rotation_step),
            Intent::Thrust(h) => ship.apply_impulse(h, cfg.thrust_impulse),
            Intent::Fire(h) => {
                let mut body = ship;
                body.apply_impulse(h, cfg.torpedo_impulse);
                self.torpedoes.push(Torpedo { body, owner: player });
            },
        }
        match player {
            PlayerId::One => self.player_one = ship,
            PlayerId::Two => self.player_two = ship,
        }
    }

    /// Player one's ship after the frame `dt`.
    pub open spec fn next_one(self, dt: int) -> Vehicle {
        self.player_one.integrated(frame_span(dt))
    }

    /// Player two's ship after the frame `dt`.
    pub open spec fn next_two(self, dt: int) -> Vehicle {
        self.player_two.integrated(frame_span(dt))
    }

    /// The torpedoes that are still in the arena after the frame `dt`, before any strike.
    pub open spec fn in_flight(self, dt: int) -> Seq<Torpedo> {
        flying(self.torpedoes@, frame_span(dt))
    }

    /// The ships touch after the frame `dt`, and the rules make that fatal.
    pub open spec fn fatal_contact(self, dt: int) -> bool {
        self.config.fatal_collisions && ships_touch(
            self.config,
            self.next_one(dt),
            self.next_two(dt),
        )
    }

    /// The kill that the frame `dt` records.
    pub open spec fn frame_kill(self, dt: int) -> Option<Kill> {
        kill_of(
            self.next_one(dt),
            self.next_two(dt),
            self.fatal_contact(dt) || struck(
                self.in_flight(dt),
                self.config,
                self.next_one(dt),
                PlayerId::One,
            ),
            self.fatal_contact(dt) || struck(
                self.in_flight(dt),
                self.config,
                self.next_two(dt),
                PlayerId::Two,
            ),
        )
    }

    /// Runs one frame of `dt` microseconds (a negative span counts as zero): both ships
    /// move and wrap around the arena; torpedoes fly straight and leave when they cross
    /// its edge; then the spatial hash finds contacts, a torpedo that strikes a ship is
    /// removed and records a kill, and ships that touch record a vehicle collision (and a
    /// kill, when collisions are fatal).
    /// The report holds the new positions and this frame's events, and the kill replaces
    /// the one of the frame before.
    pub fn advance(&mut self, dt: i64) -> (r: FrameReport)
        requires
            old(self).wf(),
        ensures
            final(self).wf(),
            final(self).config == old(self).config,
            final(self).start_time == old(self).start_time,
            final(self).player_one == old(self).next_one(dt as int),
            final(self).player_two == old(self).next_two(dt as int),
            final(self).torpedoes@ == survivors(
                old(self).in_flight(dt as int),
                old(self).config,
                old(self).next_one(dt as int),
                old(self).next_two(dt as int),
            ),
            final(self).last_kill_event == old(self).frame_kill(dt as int),
            r.kill_event == old(self).frame_kill(dt as int),
            r.vehicle_collision == ships_touch(
                old(self).config,
                old(self).next_one(dt as int),
                old(self).next_two(dt as int),
            ),
            r.ship_one == snapshot_of(final(self).player_one),
            r.ship_two == snapshot_of(final(self).player_two),
            r.torpedoes@.len() == final(self).torpedoes@.len(),
            forall|k: int|
                0 <= k < r.torpedoes@.len() ==> #[trigger] r.torpedoes@[k] == snapshot_of(
                    final(self).torpedoes@[k].body,
                ),
    {
        let cfg = self.config;
        let span: u64 = if dt < 0 {
            0
        } else {
            dt as u64
        };
        self.player_one.integrate(span);
        self.player_two.integrate(span);
        let one = self.player_one;
        let two = self.player_two;

        let ghost start = old(self).torpedoes@;
        let mut airborne: Vec<Torpedo> = Vec::new();
        let mut i: usize = 0;
        while i < self.torpedoes.len()
            invariant
                self.torpedoes@ == start,
                0 <= i <= start.len(),
                airborne@ == flying(start.take(i as int), span as int),
                forall|k: int|
                    0 <= k < airborne@.len() ==> (#[trigger] airborne@[k]).body.in_bounds(),
            decreases start.len() - i,
        {
            let t = self.torpedoes[i];
            proof {
                assert(start.take(i as int + 1).drop_last() =~= start.take(i as int));
                assert(start.take(i as int + 1).last() == t);
            }
            match t.body.coast(span) {
                Some(b) => airborne.push(Torpedo { body: b, owner: t.owner }),
                None => {},
            }
            i = i + 1;
        }
        proof {
            assert(start.take(start.len() as int) =~= start);
        }

        let one_x = cell(one.x);
        let one_y = cell(one.y);
        let two_x = cell(two.x);
        let two_y = cell(two.y);
        let grid = ShipGrid::new(one_x, one_y, two_x, two_y, cfg.ship_reach);
        let vehicle_collision = grid.contacts(two_x, two_y, cfg.ship_reach).one;

        let ghost fl = airborne@;
        let mut kept: Vec<Torpedo> = Vec::new();
        let fatal = cfg.fatal_collisions && vehicle_collision;
        let mut one_struck = fatal;
        let mut two_struck = fatal;
        let mut j: usize = 0;
        while j < airborne.len()
            invariant
                airborne@ == fl,
                0 <= j <= fl.len(),
                grid.wf(),
                grid.one_cell() == (cell_of(one.x as int), cell_of(one.y as int)),
                grid.two_cell() == (cell_of(two.x as int), cell_of(two.y as int)),
                grid.ship_reach() == cfg.ship_reach,
                cfg.wf(),
                forall|k: int| 0 <= k < fl.len() ==> (#[trigger] fl[k]).body.in_bounds(),
                kept@ == survivors(fl.take(j as int), cfg, one, two),
                one_struck == (fatal || struck(fl.take(j as int), cfg, one, PlayerId::One)),
                two_struck == (fatal || struck(fl.take(j as int), cfg, two, PlayerId::Two)),
                forall|k: int| 0 <= k < kept@.len() ==> (#[trigger] kept@[k]).body.in_bounds(),
            decreases fl.len() - j,
        {
            let t = airborne[j];
            proof {
                assert(fl.take(j as int + 1).drop_last() =~= fl.take(j as int));
                assert(fl.take(j as int + 1).last() == t);
                assert(t.body.in_bounds());
            }
            let contact = grid.contacts(cell(t.body.x), cell(t.body.y), cfg.torpedo_reach);
            let hits_one = contact.one && (cfg.friendly_fire || t.owner != PlayerId::One);
            let hits_two = contact.two && (cfg.friendly_fire || t.owner != PlayerId::Two);
            if hits_one {
                one_struck = true;
            }
            if hits_two {
                two_struck = true;
            }
            if !hits_one && !hits_two {
                kept.push(t);
            }
            j = j + 1;
        }
        proof {
            assert(fl.take(fl.len() as int) =~= fl);
        }
        self.torpedoes = kept;

        let kill_event = if one_struck {
            Some(Kill { player: PlayerId::One, x: one.x, y: one.y })
        } else if two_struck {
            Some(Kill { player: PlayerId::Two, x: two.x, y: two.y })
        } else {
            None
        };
        self.last_kill_event = kill_event;

        let mut torpedoes: Vec<EntitySnapshot> = Vec::new();
        let mut m: usize = 0;
        while m < self.torpedoes.len()
            invariant
                0 <= m <= self.torpedoes@.len(),
                torpedoes@.len() == m,
                forall|k: int|
                    0 <= k < m ==> #[trigger] torpedoes@[k] == snapshot_of(
                        self.torpedoes@[k].body,
                    ),
            decreases self.torpedoes@.len() - m,
        {
            let b = self.torpedoes[m].body;
            torpedoes.push(EntitySnapshot { x: b.x, y: b.y, orientation: b.orientation });
            m = m + 1;
        }
        FrameReport {
            ship_one: EntitySnapshot { x: one.x, y: one.y, orientation: one.orientation },
            ship_two: EntitySnapshot { x: two.x, y: two.y, orientation: two.orientation },
            torpedoes,
            kill_event,
            vehicle_collision,
        }
    }
}

/// The other ship.
pub open spec fn other(player: PlayerId) -> PlayerId {
    match player {
        PlayerId::One => PlayerId::Two,
        PlayerId::Two => PlayerId::One,
    }
}

} // verus!
