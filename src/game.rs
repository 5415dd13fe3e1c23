use vstd::prelude::*;
use crate::geometry::{covers, overlaps, Bounds, Enemy, Point};
use crate::random::{make_random_position, make_random_velocity};

verus! {

/// The two states of the game. A session is one stretch of `InGame`.
#[derive(Clone, Copy, Debug, PartialEq, Eq, Structural)]
pub enum GameState {
    Menu,
    InGame,
}

/// What one tick observed: whether the food was picked up, and whether an
/// enemy touched the player (which ends the session).
#[derive(Clone, Copy, Debug, PartialEq, Eq, Structural)]
pub struct TickOutcome {
    pub food_eaten: bool,
    pub enemy_hit: bool,
}

/// Every enemy of `s` after one tick inside `b`.
pub open spec fn stepped_all(s: Seq<Enemy>, b: Bounds) -> Seq<Enemy> {
    s.map_values(|e: Enemy| e.stepped(b))
}

/// Whether some enemy of `s` lies in the player's box.
pub open spec fn any_covered(player: Point, s: Seq<Enemy>) -> bool {
    exists|i: int| 0 <= i < s.len() && covers(player, #[trigger] s[i].pos)
}

/// The entity store and the state machine: the player and the food (present
/// exactly while in a session), the enemies, and the score of the session.
pub struct Game {
    pub state: GameState,
    pub player: Option<Point>,
    pub food: Option<Point>,
    pub enemies: Vec<Enemy>,
    pub score: usize,
}

impl Game {
    pub open spec fn wf(&self) -> bool {
        &&& self.state == GameState::Menu ==> self.is_cleared()
        &&& self.state == GameState::InGame ==> (self.player is Some && self.food is Some)
        &&& forall|i: int| 0 <= i < self.enemies@.len() ==> #[trigger] self.enemies@[i].wf()
    }

    /// The menu with no entity and a score of zero.
    pub open spec fn is_cleared(&self) -> bool {
        &&& self.state == GameState::Menu
        &&& self.player is None
        &&& self.food is None
        &&& self.enemies@.len() == 0
        &&& self.score == 0
    }

    /// The player's position during a session.
    pub open spec fn player_at(&self) -> Point {
        self.player.unwrap()
    }

    /// The food's position during a session.
    pub open spec fn food_at(&self) -> Point {
        self.food.unwrap()
    }

    /// A game that starts in the menu.
    pub fn new() -> (g: Game)
        ensures
            g.wf(),
            g.is_cleared(),
    {
        Game { state: GameState::Menu, player: None, food: None, enemies: Vec::new(), score: 0 }
    }

    pub fn state(&self) -> (r: GameState)
        ensures
            r == self.state,
    {
        self.state
    }

    pub fn score(&self) -> (r: usize)
        ensures
            r == self.score,
    {
        self.score
    }

    pub fn player_position(&self) -> (r: Option<Point>)
        ensures
            r == self.player,
    {
        self.player
    }

    pub fn food_position(&self) -> (r: Option<Point>)
        ensures
            r == self.food,
    {
        self.food
    }

    pub fn enemy_count(&self) -> (r: usize)
        ensures
            r == self.enemies@.len(),
    {
        self.enemies.len()
    }

    /// The enemy at `i`.
    pub fn enemy(&self, i: usize) -> (r: Enemy)
        requires
            i < self.enemies@.len(),
        ensures
            r == self.enemies@[i as int],
    {
        self.enemies[i]
    }

    /// Starts a session with the player at the origin and the food at `food`.
    pub fn enter_game_at(&mut self, food: Point)
        requires
            old(self).wf(),
            old(self).state == GameState::Menu,
        ensures
            final(self).wf(),
            final(self).state == GameState::InGame,
            final(self).player == Some(Point { x: 0, y: 0 }),
            final(self).food == Some(food),
            final(self).enemies@.len() == 0,
            final(self).score == 0,
    {
        self.state = GameState::InGame;
        self.player = Some(Point::origin());
        self.food = Some(food);
    }

    /// The play button: from the menu, starts a session with the player at
    /// the origin and the food at a random point of `b`. In a session it
    /// changes nothing.
    pub fn press_play(&mut self, b: Bounds)
        requires
            old(self).wf(),
            b.wf(),
        ensures
            final(self).wf(),
            old(self).state == GameState::InGame ==> *final(self) == *old(self),
            old(self).state == GameState::Menu ==> {
                &&& final(self).state == GameState::InGame
                &&& final(self).player == Some(Point { x: 0, y: 0 })
                &&& final(self).food is Some
                &&& b.holds(final(self).food_at())
                &&& final(self).enemies@.len() == 0
                &&& final(self).score == 0
            },
    {
        if self.state == GameState::Menu {
            let food = make_random_position(b);
            self.enter_game_at(food);
        }
    }

    /// Ends the session: every entity is despawned and the score is reset.
    pub fn exit_game(&mut self)
        requires
            old(self).wf(),
        ensures
            final(self).wf(),
            final(self).is_cleared(),
    {
        self.state = GameState::Menu;
        self.player = None;
        self.food = None;
        self.enemies = Vec::new();
        self.score = 0;
    }

    /// Moves the player to the pointer, if there is one.
    pub fn move_player(&mut self, pointer: Option<Point>)
        requires
            old(self).wf(),
            old(self).state == GameState::InGame,
        ensures
            final(self).wf(),
            final(self).player == match pointer {
                Some(p) => Some(p),
                None => old(self).player,
            },
            final(self).state == old(self).state,
            final(self).food == old(self).food,
            final(self).enemies@ == old(self).enemies@,
            final(self).score == old(self).score,
    {
        if let Some(p) = pointer {
            self.player = Some(p);
        }
    }

    /// Moves every enemy one tick and bounces it off the edges of `b`.
    pub fn move_enemies(&mut self, b: Bounds)
        requires
            old(self).wf(),
            b.wf(),
        ensures
            final(self).wf(),
            final(self).enemies@ == stepped_all(old(self).enemies@, b),
            forall|i: int|
                0 <= i < final(self).enemies@.len() ==> b.holds(#[trigger] final(self).enemies@[i].pos),
            final(self).state == old(self).state,
            final(self).player == old(self).player,
            final(self).food == old(self).food,
            final(self).score == old(self).score,
    {
        let n = self.enemies.len();
        let mut i: usize = 0;
        while i < n
            invariant
                self.wf(),
                b.wf(),
                i <= n,
                n == old(self).enemies@.len(),
                self.enemies@.len() == n,
                forall|j: int| 0 <= j < i ==> self.enemies@[j] == old(self).enemies@[j].stepped(b),
                forall|j: int| 0 <= j < i ==> b.holds(#[trigger] self.enemies@[j].pos),
                forall|j: int| i <= j < n ==> self.enemies@[j] == old(self).enemies@[j],
                self.state == old(self).state,
                self.player == old(self).player,
                self.food == old(self).food,
                self.score == old(self).score,
            decreases n - i,
        {
            let mut e = self.enemies[i];
            e.step(b);
            self.enemies.set(i, e);
            i += 1;
        }
        assert(self.enemies@ =~= stepped_all(old(self).enemies@, b));
    }

    /// Whether some enemy lies in the player's box; the search stops at the
    /// first one found.
    pub fn check_enemies(&self) -> (r: bool)
        requires
            self.wf(),
            self.state == GameState::InGame,
        ensures
            r == any_covered(self.player_at(), self.enemies@),
    {
        let p = match self.player {
            Some(p) => p,
            None => Point::origin(),
        };
        let mut i: usize = 0;
        while i < self.enemies.len()
            invariant
                self.player == Some(p),
                i <= self.enemies@.len(),
                forall|j: int| 0 <= j < i ==> !covers(p, #[trigger] self.enemies@[j].pos),
            decreases self.enemies@.len() - i,
        {
            if overlaps(p, self.enemies[i].pos) {
                return true;
            }
            i += 1;
        }
        false
    }

    /// Whether the food lies in the player's box.
    pub fn food_reached(&self) -> (r: bool)
        requires
            self.wf(),
            self.state == GameState::InGame,
        ensures
            r == covers(self.player_at(), self.food_at()),
    {
        match (self.player, self.food) {
            (Some(p), Some(f)) => overlaps(p, f),
            _ => false,
        }
    }

    /// A pickup: the food moves to `new_food` and the score grows by one.
    pub fn eat_food(&mut self, new_food: Point)
        requires
            old(self).wf(),
            old(self).state == GameState::InGame,
            old(self).score < usize::MAX,
        ensures
            final(self).wf(),
            final(self).food == Some(new_food),
            final(self).score == old(self).score + 1,
            final(self).state == old(self).state,
            final(self).player == old(self).player,
            final(self).enemies@ == old(self).enemies@,
    {
        self.food = Some(new_food);
        self.score = self.score + 1;
    }

    /// Picks up the food if it lies in the player's box: it then moves to a
    /// random point of `b` and the score grows by one. Returns whether it did.
    pub fn check_food(&mut self, b: Bounds) -> (r: bool)
        requires
            old(self).wf(),
            old(self).state == GameState::InGame,
            old(self).score < usize::MAX,
            b.wf(),
        ensures
            final(self).wf(),
            r == covers(old(self).player_at(), old(self).food_at()),
            r ==> final(self).score == old(self).score + 1 && final(self).food is Some && b.holds(
                final(self).food_at(),
            ),
            !r ==> final(self).score == old(self).score && final(self).food == old(self).food,
            final(self).state == old(self).state,
            final(self).player == old(self).player,
            final(self).enemies@ == old(self).enemies@,
    {
        if self.food_reached() {
            let f = make_random_position(b);
            self.eat_food(f);
            true
        } else {
            false
        }
    }

    /// Adds the enemy `e`.
    pub fn spawn_enemy(&mut self, e: Enemy)
        requires
            old(self).wf(),
            old(self).state == GameState::InGame,
            e.wf(),
        ensures
            final(self).wf(),
            final(self).enemies@ == old(self).enemies@.push(e),
            final(self).state == old(self).state,
            final(self).player == old(self).player,
            final(self).food == old(self).food,
            final(self).score == old(self).score,
    {
        self.enemies.push(e);
        assert forall|i: int| 0 <= i < self.enemies@.len() implies #[trigger] self.enemies@[i].wf() by {
            if i < old(self).enemies@.len() {
                assert(self.enemies@[i] == old(self).enemies@[i]);
            }
        }
    }

    /// Adds an enemy at a random point of `b`, moving at the enemy speed in
    /// a random direction of the first quadrant.
    pub fn spawn_random_enemy(&mut self, b: Bounds)
        requires
            old(self).wf(),
            old(self).state == GameState::InGame,
            b.wf(),
        ensures
            final(self).wf(),
            final(self).enemies@.len() == old(self).enemies@.len() + 1,
            final(self).enemies@.drop_last() == old(self).enemies@,
            b.holds(final(self).enemies@.last().pos),
            final(self).state == old(self).state,
            final(self).player == old(self).player,
            final(self).food == old(self).food,
            final(self).score == old(self).score,
    {
        let pos = make_random_position(b);
        let vel = make_random_velocity();
        self.spawn_enemy(Enemy { pos, vel });
        assert(self.enemies@.drop_last() =~= old(self).enemies@);
    }

    /// One tick of a session, in order: the player follows the pointer, the
    /// enemies move and bounce, enemy contact is checked, the food is picked
    /// up if reached (and one enemy spawns for it). Contact with an enemy
    /// then ends the session.
    pub fn tick(&mut self, b: Bounds, pointer: Option<Point>) -> (r: TickOutcome)
        requires
            old(self).wf(),
            old(self).state == GameState::InGame,
            old(self).score < usize::MAX,
            b.wf(),
        ensures
            final(self).wf(),
            ({
                let p = match pointer {
                    Some(q) => q,
                    None => old(self).player_at(),
                };
                let moved = stepped_all(old(self).enemies@, b);
                &&& r.enemy_hit == any_covered(p, moved)
                &&& r.food_eaten == covers(p, old(self).food_at())
                &&& r.enemy_hit ==> final(self).is_cleared()
                &&& !r.enemy_hit ==> {
                    &&& final(self).state == GameState::InGame
                    &&& final(self).player == Some(p)
                    &&& forall|i: int|
                        0 <= i < final(self).enemies@.len() ==> b.holds(
                            #[trigger] final(self).enemies@[i].pos,
                        )
                    &&& r.food_eaten ==> {
                        &&& final(self).score == old(self).score + 1
                        &&& final(self).enemies@.len() == moved.len() + 1
                        &&& final(self).enemies@.drop_last() == moved
                        &&& b.holds(final(self).food_at())
                    }
                    &&& !r.food_eaten ==> {
                        &&& final(self).score == old(self).score
                        &&& final(self).enemies@ == moved
                        &&& final(self).food == old(self).food
                    }
                }
            }),
    {
        self.move_player(pointer);
        self.move_enemies(b);
        let enemy_hit = self.check_enemies();
        let food_eaten = self.check_food(b);
        if food_eaten {
            let ghost before = self.enemies@;
            self.spawn_random_enemy(b);
            assert forall|i: int| 0 <= i < self.enemies@.len() implies b.holds(
                #[trigger] self.enemies@[i].pos,
            ) by {
                if i < before.len() {
                    assert(self.enemies@[i] == self.enemies@.drop_last()[i]);
                    assert(b.holds(before[i].pos));
                }
            }
        }
        if enemy_hit {
            self.exit_game();
        }
        TickOutcome { food_eaten, enemy_hit }
    }
}

} // verus!
