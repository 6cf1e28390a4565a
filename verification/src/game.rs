//! Round-level state and the registered system pipeline: a `Game` owns a
//! `World` plus a `GameState`, and runs the systems a driver registered, in
//! order, once per frame.  The collision system is the single point where
//! physical overlap becomes a narrative event: a colliding player flips the
//! round to game over.

use vstd::prelude::*;

use crate::components::{Input, Tag};
use crate::entity::Entity;
use crate::systems::{collide_pass, collide_system, entity_hits, jump_system, movement_pass,
    movement_system, physics_pass};
use crate::world::{World, reset_pass};

verus! {

/// Round-level state: a score accumulator owned by the driver and a
/// terminal game-over flag.  Systems only ever set the flag; nothing clears
/// it but an explicit reset.
#[derive(Clone, Copy, Debug, PartialEq, Eq, Structural)]
pub struct GameState {
    pub score: i64,
    pub game_over: bool,
}

impl GameState {
    /// A fresh round: zero score, not over.
    pub fn new() -> (s: GameState)
        ensures
            s == (GameState { score: 0, game_over: false }),
    {
        GameState { score: 0, game_over: false }
    }
}

/// The systems a driver can register on a game's update pipeline.
#[derive(Clone, Copy, Debug, PartialEq, Eq, Structural)]
pub enum SystemKind {
    /// The collision pass, plus the game-over transition for a colliding
    /// player.
    Collision,
    /// The jump/gravity pass.
    Physics,
    /// The constant-velocity movement pass.
    Movement,
}

/// The ordered update pipeline a driver registered.
#[derive(Debug)]
pub struct Systems {
    pub update: Vec<SystemKind>,
}

impl Systems {
    /// An empty pipeline.
    pub fn new() -> (s: Systems)
        ensures
            s.update@ == Seq::<SystemKind>::empty(),
    {
        let s = Systems { update: Vec::new() };
        proof {
            assert(s.update@ =~= Seq::<SystemKind>::empty());
        }
        s
    }
}

/// Whether this frame's collision pass finds the player in a colliding
/// pair: some collision-bearing, player-tagged entity overlapping another
/// collision-bearing entity.
pub open spec fn collision_sets_game_over(s: Seq<Entity>) -> bool {
    exists|i: int|
        0 <= i < s.len() && s[i].tag == Some(Tag::Player) && s[i].collide is Some && entity_hits(
            s,
            i,
        )
}

/// One registered system applied to the entities and the game-over flag.
pub open spec fn run_system(k: SystemKind, s: Seq<Entity>, game_over: bool, input: Input) -> (
    Seq<Entity>,
    bool,
) {
    match k {
        SystemKind::Collision => (collide_pass(s), game_over || collision_sets_game_over(s)),
        SystemKind::Physics => (physics_pass(s, input), game_over),
        SystemKind::Movement => (movement_pass(s, input), game_over),
    }
}

/// The registered pipeline folded over the entities and the game-over flag,
/// in registration order.
pub open spec fn run_pipeline(ks: Seq<SystemKind>, s: Seq<Entity>, game_over: bool, input: Input)
    -> (Seq<Entity>, bool)
    decreases ks.len(),
{
    if ks.len() == 0 {
        (s, game_over)
    } else {
        let stepped = run_system(ks[0], s, game_over, input);
        run_pipeline(ks.skip(1), stepped.0, stepped.1, input)
    }
}

/// Reports whether the player is currently in a colliding pair; the
/// executable counterpart of [`collision_sets_game_over`].
pub fn player_collision(entities: &Vec<Entity>) -> (r: bool)
    ensures
        r == collision_sets_game_over(entities@),
{
    let s = entities;
    let n: usize = s.len();
    let mut found: bool = false;
    for i in 0..n
        invariant
            n == s@.len(),
            found == exists|i0: int|
                0 <= i0 < i && s@[i0].tag == Some(Tag::Player) && s@[i0].collide is Some
                    && entity_hits(s@, i0),
    {
        let player_here: bool = match s[i].tag {
            Some(t) => t == Tag::Player,
            None => false,
        };
        if player_here && s[i].collide.is_some() {
            let mut hit: bool = false;
            for j in 0..n
                invariant
                    n == s@.len(),
                    0 <= i < n,
                    hit == exists|j0: int|
                        0 <= j0 < j && j0 != i && s@[j0].collide is Some
                            && crate::components::rects_overlap(
                            s@[i as int].transform,
                            s@[j0].transform,
                        ),
            {
                if j != i && s[j].collide.is_some() && s[i].transform.overlaps(&s[j].transform) {
                    hit = true;
                }
            }
            if hit {
                found = true;
                proof {
                    assert(entity_hits(s@, i as int));
                    assert((i as int) < i + 1 && s@[i as int].tag == Some(Tag::Player) && s@[
                        i as int
                    ].collide is Some && entity_hits(s@, i as int));
                }
            }
        }
    }
    found
}

/// A world together with its round state and the driver's registered
/// pipeline.
#[derive(Debug)]
pub struct Game {
    pub world: World,
    pub state: GameState,
    pub systems: Systems,
}

impl Game {
    /// Wraps a world with a fresh round state and an empty pipeline.
    pub fn new(world: World) -> (g: Game)
        ensures
            g.world.entities@ == world.entities@,
            g.world.origin == world.origin,
            g.state == (GameState { score: 0, game_over: false }),
            g.systems.update@ == Seq::<SystemKind>::empty(),
    {
        Game { world, state: GameState::new(), systems: Systems::new() }
    }

    /// Registers one more system at the end of the update pipeline.
    pub fn with_update_system(self, system: SystemKind) -> (g: Game)
        ensures
            g.systems.update@ == self.systems.update@.push(system),
            g.world.entities@ == self.world.entities@,
            g.world.origin == self.world.origin,
            g.state == self.state,
    {
        let mut g = self;
        g.systems.update.push(system);
        g
    }

    /// Registers several systems at the end of the update pipeline, in
    /// order.
    pub fn with_update_systems(self, systems: Vec<SystemKind>) -> (g: Game)
        ensures
            g.systems.update@ == self.systems.update@ + systems@,
            g.world.entities@ == self.world.entities@,
            g.world.origin == self.world.origin,
            g.state == self.state,
    {
        let ghost ks0 = self.systems.update@;
        let mut g = self;
        let n: usize = systems.len();
        for i in 0..n
            invariant
                n == systems@.len(),
                g.systems.update@ == ks0 + systems@.take(i as int),
                g.world.entities@ == self.world.entities@,
                g.world.origin == self.world.origin,
                g.state == self.state,
        {
            g.systems.update.push(systems[i]);
            proof {
                assert(g.systems.update@ =~= ks0 + systems@.take(i + 1));
            }
        }
        proof {
            assert(ks0 + systems@.take(n as int) =~= ks0 + systems@);
        }
        g
    }

    /// Runs the registered update pipeline once, in registration order.
    /// The entities and the game-over flag end exactly at
    /// [`run_pipeline`]; the score, the origin and the registered systems
    /// are untouched.
    pub fn update(&mut self, input: &Input)
        requires
            input.wf(),
        ensures
            (final(self).world.entities@, final(self).state.game_over) == run_pipeline(
                old(self).systems.update@,
                old(self).world.entities@,
                old(self).state.game_over,
                *input,
            ),
            final(self).state.score == old(self).state.score,
            final(self).world.origin == old(self).world.origin,
            final(self).systems.update@ == old(self).systems.update@,
    {
        let ghost ks = self.systems.update@;
        let ghost s0 = self.world.entities@;
        let ghost go0 = self.state.game_over;
        let n: usize = self.systems.update.len();
        proof {
            assert(ks.skip(0) =~= ks);
        }
        for i in 0..n
            invariant
                input.wf(),
                n == ks.len(),
                self.systems.update@ == ks,
                self.state.score == old(self).state.score,
                self.world.origin == old(self).world.origin,
                run_pipeline(ks, s0, go0, *input) == run_pipeline(
                    ks.skip(i as int),
                    self.world.entities@,
                    self.state.game_over,
                    *input,
                ),
                ks == old(self).systems.update@,
                s0 == old(self).world.entities@,
                go0 == old(self).state.game_over,
        {
            let ghost s_cur = self.world.entities@;
            let ghost go_cur = self.state.game_over;
            let kind: SystemKind = self.systems.update[i];
            match kind {
                SystemKind::Collision => {
                    let over: bool = player_collision(&self.world.entities);
                    collide_system(&mut self.world.entities);
                    if over {
                        self.state.game_over = true;
                    }
                },
                SystemKind::Physics => {
                    jump_system(&mut self.world.entities, input);
                },
                SystemKind::Movement => {
                    movement_system(&mut self.world.entities, input);
                },
            }
            proof {
                assert((self.world.entities@, self.state.game_over) == run_system(
                    ks[i as int],
                    s_cur,
                    go_cur,
                    *input,
                ));
                assert(ks.skip(i as int).skip(1) =~= ks.skip(i + 1));
                assert(ks.skip(i as int)[0] == ks[i as int]);
            }
        }
        proof {
            assert(ks.skip(n as int) =~= Seq::<SystemKind>::empty());
        }
    }

    /// Restarts the round: every entity back at its default spawn
    /// configuration and a fresh round state, with the registered pipeline
    /// kept.
    pub fn reset(&mut self)
        ensures
            final(self).world.entities@ == reset_pass(old(self).world.entities@),
            final(self).world.origin == old(self).world.origin,
            final(self).state == (GameState { score: 0, game_over: false }),
            final(self).systems.update@ == old(self).systems.update@,
    {
        self.world.reset();
        self.state = GameState::new();
    }
}

} // verus!
