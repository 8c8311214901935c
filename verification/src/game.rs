//! One game: a grid, the snake on it and the food, and what a tick does to
//! them.

use vstd::prelude::*;
use crate::food::{has_free_cell, is_free, Food};
use crate::grid::{GridConfig, Position};
use crate::input::KeyState;
use crate::snake::{MoveSignals, Snake, SnakeView};

verus! {

/// The two states of a round. `Resetting` is entered and left within one
/// call: between calls a game is always `Running`.
#[derive(Clone, Copy, Debug, PartialEq, Eq, Structural)]
pub enum Lifecycle {
    Running,
    Resetting,
}

impl Lifecycle {
    /// The state that a movement step's signals lead to from `Running`.
    pub open spec fn spec_after(signals: MoveSignals) -> Lifecycle {
        if signals.spec_game_over() {
            Lifecycle::Resetting
        } else {
            Lifecycle::Running
        }
    }

    /// The state that a movement step's signals lead to from `Running`:
    /// `Resetting` where at least one game-over signal was raised.
    #[verifier::when_used_as_spec(spec_after)]
    pub fn after(signals: MoveSignals) -> (r: Lifecycle)
        ensures
            r == Self::spec_after(signals),
    {
        if signals.count() > 0 {
            Lifecycle::Resetting
        } else {
            Lifecycle::Running
        }
    }
}

/// What one tick reports.
#[derive(Clone, Copy, Debug, PartialEq, Eq, Structural)]
pub struct TickReport {
    /// The game-over signals that the movement step raised.
    pub signals: MoveSignals,
    /// Whether the head reached the food, so that the snake was told to grow.
    pub growth: bool,
    /// Whether the round ended and a new one was set up.
    pub reset: bool,
}

/// What a game is, as a mathematical value.
pub struct GameView {
    pub grid: GridConfig,
    pub snake: SnakeView,
    pub food: Option<Position>,
}

impl GameView {
    /// What holds of a game between any two calls: the grid and the snake
    /// are well formed, the head can take a step along any heading, and the
    /// food, if there is any, lies on a cell of the grid that no segment
    /// holds.
    pub open spec fn wf(self) -> bool {
        &&& self.grid.wf()
        &&& self.snake.wf()
        &&& self.snake.head().is_inner()
        &&& self.food is Some ==> is_free(self.grid, self.snake.body, self.food->0)
    }

    /// The start of a round on `grid`: the starting snake and no food.
    pub open spec fn fresh(grid: GridConfig) -> GameView {
        GameView { grid, snake: SnakeView::fresh(), food: None }
    }

    /// The game after one sampling of the keys.
    pub open spec fn steered(self, keys: KeyState) -> GameView {
        GameView { snake: self.snake.steered(keys), ..self }
    }

    /// Whether the next movement step brings the head onto the food.
    pub open spec fn eats(self) -> bool {
        self.food == Some(self.snake.next_head())
    }

    /// The game after the movement step of a tick and the eating and growth
    /// that follow it, before game-over signals are looked at.
    pub open spec fn stepped(self) -> GameView {
        if self.eats() {
            GameView { snake: self.snake.moved().grown(), food: None, ..self }
        } else {
            GameView { snake: self.snake.moved(), ..self }
        }
    }

    /// The game after game-over signals were looked at: a new round where
    /// there is at least one, no change where there is none.
    pub open spec fn resolved(self, signals: MoveSignals) -> GameView {
        if signals.spec_game_over() {
            Self::fresh(self.grid)
        } else {
            self
        }
    }

    /// The game after one tick.
    pub open spec fn ticked(self) -> GameView {
        self.stepped().resolved(self.snake.signals(self.grid))
    }

    /// What one tick reports.
    pub open spec fn tick_report(self) -> TickReport {
        TickReport {
            signals: self.snake.signals(self.grid),
            growth: self.eats(),
            reset: self.snake.signals(self.grid).spec_game_over(),
        }
    }
}

/// One game.
#[derive(Debug)]
pub struct Game {
    grid: GridConfig,
    snake: Snake,
    food: Food,
}

impl View for Game {
    type V = GameView;

    closed spec fn view(&self) -> GameView {
        GameView { grid: self.grid, snake: self.snake@, food: self.food@ }
    }
}

impl Game {
    /// A game at the start of its first round.
    pub fn new(grid: GridConfig) -> (r: Game)
        requires
            grid.wf(),
        ensures
            r@ == GameView::fresh(grid),
            r@.wf(),
    {
        Game { grid, snake: Snake::spawn(), food: Food::absent() }
    }

    /// A game in a given state, where that state is one a game can be in
    /// between two ticks: the head can take a step along any heading, and
    /// the food, if any, lies on a cell of the grid that no segment holds.
    pub fn from_parts(grid: GridConfig, snake: Snake, food: Option<Position>) -> (r: Option<Game>)
        requires
            grid.wf(),
            snake@.wf(),
        ensures
            r is Some <==> (GameView { grid, snake: snake@, food }).wf(),
            r is Some ==> r->0@ == (GameView { grid, snake: snake@, food }),
    {
        let head = snake.head();
        let inner = i32::MIN < head.x && head.x < i32::MAX && i32::MIN < head.y && head.y
            < i32::MAX;
        let fits = match food {
            Some(p) => grid.in_bounds(p) && !snake.occupies(p),
            None => true,
        };
        if inner && fits {
            let food = match food {
                Some(p) => Food::at(p),
                None => Food::absent(),
            };
            Some(Game { grid, snake, food })
        } else {
            None
        }
    }

    pub fn grid(&self) -> (r: GridConfig)
        ensures
            r == self@.grid,
    {
        self.grid
    }

    pub fn snake(&self) -> (r: &Snake)
        ensures
            r@ == self@.snake,
    {
        &self.snake
    }

    /// Where the food lies, if there is any.
    pub fn food(&self) -> (r: Option<Position>)
        ensures
            r == self@.food,
    {
        self.food.position()
    }

    /// One sampling of the keys: the heading they ask for becomes the
    /// snake's pending heading unless it points against the committed one.
    pub fn steer(&mut self, keys: KeyState)
        requires
            old(self)@.wf(),
        ensures
            final(self)@ == old(self)@.steered(keys),
            final(self)@.wf(),
    {
        self.snake.steer(keys);
    }

    /// Ends the round: every segment and the food are taken away, and the
    /// starting snake is put on the grid.
    pub fn reset(&mut self)
        requires
            old(self)@.grid.wf(),
        ensures
            final(self)@ == GameView::fresh(old(self)@.grid),
            final(self)@.wf(),
    {
        self.snake = Snake::spawn();
        self.food.clear();
    }

    /// Looks at the game-over signals of a movement step. With at least one
    /// the round is ended and a new one set up, once, however many there
    /// are; with none nothing changes. The result says whether the round
    /// was ended.
    pub fn resolve(&mut self, signals: MoveSignals) -> (reset: bool)
        requires
            old(self)@.grid.wf(),
        ensures
            final(self)@ == old(self)@.resolved(signals),
            reset == signals.spec_game_over(),
            old(self)@.wf() ==> final(self)@.wf(),
    {
        match Lifecycle::after(signals) {
            Lifecycle::Resetting => {
                self.reset();
                true
            },
            Lifecycle::Running => false,
        }
    }

    /// One tick. The snake takes its movement step; if the head is then on
    /// the food, the food is eaten and the snake grows by one segment on the
    /// cell that its tail has just left; if the step raised a game-over
    /// signal, the round is ended and a new one set up.
    pub fn tick(&mut self) -> (report: TickReport)
        requires
            old(self)@.wf(),
        ensures
            final(self)@ == old(self)@.ticked(),
            report == old(self)@.tick_report(),
            final(self)@.wf(),
            !(report.growth && report.reset),
    {
        proof {
            lemma_tick_keeps_wf(self@);
            if self@.snake.signals(self@.grid).spec_game_over() {
                lemma_fatal_step_eats_nothing(self@);
            }
        }
        let signals = self.snake.advance(&self.grid);
        let head = self.snake.head();
        let growth = self.food.check_consumption(head);
        if growth {
            self.snake.grow();
        }
        let reset = self.resolve(signals);
        TickReport { signals, growth, reset }
    }

    /// Puts food on the grid if there is none and the snake leaves a cell
    /// free; the piece lies on a free cell. The result says whether a piece
    /// was placed.
    pub fn spawn_food(&mut self) -> (spawned: bool)
        requires
            old(self)@.wf(),
        ensures
            spawned == (old(self)@.food is None && has_free_cell(
                old(self)@.grid,
                old(self)@.snake.body,
            )),
            spawned ==> final(self)@.food is Some && is_free(
                old(self)@.grid,
                old(self)@.snake.body,
                final(self)@.food->0,
            ),
            !spawned ==> final(self)@.food == old(self)@.food,
            final(self)@.grid == old(self)@.grid,
            final(self)@.snake == old(self)@.snake,
            final(self)@.wf(),
    {
        self.food.spawn_if_absent(&self.grid, &self.snake)
    }
}

/// Every cell of the body after a movement step is the new head or was a
/// cell of the body before.
pub proof fn lemma_moved_cells(s: SnakeView, p: Position)
    requires
        s.wf(),
        s.moved().body.contains(p),
    ensures
        p == s.next_head() || s.body.contains(p),
{
    let m = s.moved().body;
    let i = choose|i: int| 0 <= i < m.len() && m[i] == p;
    if i > 0 {
        assert(s.body[i - 1] == p);
    }
}

/// A step that ends the round eats nothing: the food lies on the grid and
/// off the body, and a fatal step puts the head off the grid or on the body.
pub proof fn lemma_fatal_step_eats_nothing(g: GameView)
    requires
        g.wf(),
        g.snake.signals(g.grid).spec_game_over(),
    ensures
        !g.eats(),
{
    if g.eats() {
        let p = g.snake.next_head();
        if g.snake.hits_self() {
            let i = choose|i: int| 1 <= i < g.snake.body.len() && g.snake.body[i] == p;
            assert(g.snake.body.contains(p));
        }
    }
}

/// A tick takes a well-formed game to a well-formed game. In particular the
/// snake has at least two segments before and after every tick.
pub proof fn lemma_tick_keeps_wf(g: GameView)
    requires
        g.wf(),
    ensures
        g.ticked().wf(),
        g.ticked().snake.body.len() >= 2,
{
    let signals = g.snake.signals(g.grid);
    if !signals.spec_game_over() {
        let s = g.stepped();
        g.grid.lemma_cells_are_inner(g.snake.next_head());
        assert(s.snake.body[0] == g.snake.next_head());
        if !g.eats() && g.food is Some {
            let f = g.food->0;
            if s.snake.body.contains(f) {
                lemma_moved_cells(g.snake, f);
            }
        }
    } else {
        assert(SnakeView::fresh().body[0] == Position { x: 3, y: 3 });
    }
}

/// Ending a round is idempotent. Two game-over signals from one step set up
/// the same new round as one signal does, and looking at game-over signals
/// once more right after changes nothing: there is one starting snake of two
/// segments and no food.
pub proof fn lemma_reset_once(g: GameView, first: MoveSignals, second: MoveSignals)
    requires
        first.spec_game_over(),
        second.spec_game_over(),
    ensures
        g.resolved(first) == GameView::fresh(g.grid),
        g.resolved(first) == g.resolved(second),
        g.resolved(first).resolved(second) == g.resolved(first),
        g.resolved(first).snake == SnakeView::fresh(),
        g.resolved(first).snake.body.len() == 2,
        g.resolved(first).food is None,
{
}

/// A tick on which the head reaches the food removes the food and lengthens
/// the snake by exactly one segment, which lies on the cell that the tail
/// left on this very tick.
pub proof fn lemma_eating_grows(g: GameView)
    requires
        g.wf(),
        g.eats(),
    ensures
        g.tick_report().growth,
        !g.tick_report().reset,
        g.ticked().food is None,
        g.ticked().snake.body.len() == g.snake.body.len() + 1,
        g.ticked().snake.body.last() == g.snake.tail(),
        g.ticked().snake.body[0] == g.food->0,
{
    if g.snake.signals(g.grid).spec_game_over() {
        lemma_fatal_step_eats_nothing(g);
    }
    crate::snake::lemma_growth_fills_vacated_cell(g.snake);
}

/// The food never lies under the snake: not when it is placed, and not
/// after any tick or any sampling of the keys that follows.
pub proof fn lemma_food_stays_off_snake(g: GameView, keys: KeyState)
    requires
        g.wf(),
    ensures
        g.ticked().food is Some ==> !g.ticked().snake.body.contains(g.ticked().food->0),
        g.steered(keys).food is Some ==> !g.steered(keys).snake.body.contains(
            g.steered(keys).food->0,
        ),
{
    lemma_tick_keeps_wf(g);
}

} // verus!
