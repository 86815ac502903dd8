//! The simulation: the snake's body, the food, and what one tick does to
//! them.

use crate::chance::draw;
use crate::config::Config;
use crate::direction::Direction;
use crate::grid::Cell;
use vstd::prelude::*;

verus! {

/// One cell to redraw: `occupied` says whether it is drawn as taken (by the
/// snake or the food) or as empty.
#[derive(Clone, Copy, Debug, PartialEq, Eq, Structural)]
pub struct Update {
    pub cell: Cell,
    pub occupied: bool,
}

/// A game as a mathematical value: the settings, the body from the tail
/// (first) to the head (last), and the food.
pub struct GameView {
    pub config: Config,
    pub body: Seq<Cell>,
    pub food: Cell,
}

/// A running game.
#[derive(Debug)]
pub struct Game {
    config: Config,
    body: Vec<Cell>,
    food: Cell,
}

impl View for Game {
    type V = GameView;

    closed spec fn view(&self) -> GameView {
        GameView { config: self.config, body: self.body@, food: self.food }
    }
}

impl GameView {
    /// A game is well formed when its grid has cells and its snake has at
    /// least a head.
    pub open spec fn wf(self) -> bool {
        self.config.has_cells() && self.body.len() >= 1
    }

    /// The cell of the head.
    pub open spec fn head(self) -> Cell
        recommends
            self.body.len() >= 1,
    {
        self.body.last()
    }

    /// The cell of the tail's end, the oldest cell of the body.
    pub open spec fn tail(self) -> Cell
        recommends
            self.body.len() >= 1,
    {
        self.body.first()
    }

    /// The cell that the head moves to on a tick in `direction`.
    pub open spec fn next_head(self, direction: Direction) -> Cell {
        self.head().spec_next(direction, self.config)
    }

    /// Whether a tick in `direction` brings the head onto the food.
    pub open spec fn eats(self, direction: Direction) -> bool {
        self.next_head(direction) == self.food
    }

    /// The body after a tick in `direction`: the new head is added, and the
    /// oldest cell leaves unless the head has reached the food.
    pub open spec fn body_after(self, direction: Direction) -> Seq<Cell> {
        if self.eats(direction) {
            self.body.push(self.next_head(direction))
        } else {
            self.body.push(self.next_head(direction)).drop_first()
        }
    }

    /// The cells to redraw after a tick in `direction`, in the order in
    /// which they are drawn: first the new head, as occupied; then the new
    /// food, as occupied, where the food was eaten and `new_food` takes its
    /// place, or else the cell that the tail has left, as empty.
    pub open spec fn updates_after(self, direction: Direction, new_food: Cell) -> Seq<Update> {
        let head = Update { cell: self.next_head(direction), occupied: true };
        if self.eats(direction) {
            seq![head, Update { cell: new_food, occupied: true }]
        } else {
            seq![head, Update { cell: self.tail(), occupied: false }]
        }
    }

    /// The game after a tick in `direction`, where `new_food` is the cell
    /// that the food moves to if it is eaten.
    pub open spec fn after_tick(self, direction: Direction, new_food: Cell) -> GameView {
        GameView {
            config: self.config,
            body: self.body_after(direction),
            food: if self.eats(direction) {
                new_food
            } else {
                self.food
            },
        }
    }
}

/// The cell that two drawn numbers stand for: each is reduced to a
/// coordinate by the remainder of the division by the grid's dimension.
pub open spec fn spec_food_cell(draw_x: usize, draw_y: usize, config: Config) -> Cell
    recommends
        config.has_cells(),
{
    Cell {
        x: (draw_x as int % config.spec_width() as int) as u32,
        y: (draw_y as int % config.spec_height() as int) as u32,
    }
}

/// The cell on the grid of `config` that two drawn numbers stand for.
pub fn food_cell(draw_x: usize, draw_y: usize, config: &Config) -> (cell: Cell)
    requires
        config.has_cells(),
    ensures
        cell == spec_food_cell(draw_x, draw_y, *config),
        cell.x == draw_x % (config.spec_width() as usize),
        cell.y == draw_y % (config.spec_height() as usize),
        cell.in_grid(*config),
{
    let x: usize = draw_x % (config.width() as usize);
    let y: usize = draw_y % (config.height() as usize);
    Cell { x: x as u32, y: y as u32 }
}

impl Game {
    /// A game is well formed when its view is.
    pub open spec fn wf(&self) -> bool {
        self@.wf()
    }

    /// A new game on the grid of `config`: the snake is one cell long and
    /// stands on column 1 of row 1, and the food lies on column 2 of the
    /// same row.
    pub fn new(config: Config) -> (game: Game)
        requires
            config.has_cells(),
        ensures
            game.wf(),
            game@.config == config,
            game@.body == seq![Cell { x: 1, y: 1 }],
            game@.food == (Cell { x: 2, y: 1 }),
    {
        let mut body: Vec<Cell> = Vec::new();
        body.push(Cell { x: 1, y: 1 });
        Game { config, body, food: Cell { x: 2, y: 1 } }
    }

    /// A game in a given position: `body` holds the snake from the tail to
    /// the head. There is no such game where the grid has no cell or the
    /// body is empty.
    pub fn from_parts(config: Config, body: Vec<Cell>, food: Cell) -> (game: Option<Game>)
        ensures
            game.is_some() <==> config.has_cells() && body@.len() >= 1,
            game matches Some(g) ==> g.wf() && g@.config == config && g@.body == body@ && g@.food
                == food,
    {
        if config.is_playable() && body.len() >= 1 {
            Some(Game { config, body, food })
        } else {
            None
        }
    }

    /// The settings of the game.
    pub fn config(&self) -> (config: Config)
        ensures
            config == self@.config,
    {
        self.config
    }

    /// The body, from the tail to the head.
    pub fn body(&self) -> (body: &Vec<Cell>)
        ensures
            body@ == self@.body,
    {
        &self.body
    }

    /// The number of cells of the body.
    pub fn len(&self) -> (len: usize)
        ensures
            len == self@.body.len(),
    {
        self.body.len()
    }

    /// The cell of the food.
    pub fn food(&self) -> (food: Cell)
        ensures
            food == self@.food,
    {
        self.food
    }

    /// The cell of the head.
    pub fn head(&self) -> (head: Cell)
        requires
            self.wf(),
        ensures
            head == self@.head(),
    {
        self.body[self.body.len() - 1]
    }

    /// Whether a tick in `direction` would bring the head onto the food.
    pub fn will_eat(&self, direction: Direction) -> (eats: bool)
        requires
            self.wf(),
        ensures
            eats == self@.eats(direction),
    {
        let next: Cell = self.head().next(direction, &self.config);
        next == self.food
    }

    /// One tick in `direction`, with the cell `new_food` ready to take the
    /// place of the food if the head reaches it. Returns the cells to
    /// redraw, in the order in which they are to be drawn.
    ///
    /// The body grows by one cell exactly when the food is eaten; on any
    /// other tick it keeps its length and gives up its oldest cell. Either
    /// way two cells are redrawn, the new head first.
    pub fn advance_to(&mut self, direction: Direction, new_food: Cell) -> (updates: Vec<Update>)
        requires
            old(self).wf(),
        ensures
            final(self).wf(),
            final(self)@ == old(self)@.after_tick(direction, new_food),
            updates@ == old(self)@.updates_after(direction, new_food),
            updates@.len() == 2,
            updates@[0] == (Update { cell: final(self)@.head(), occupied: true }),
            old(self)@.eats(direction) ==> final(self)@.body.len() == old(self)@.body.len() + 1
                && updates@[1].occupied,
            !old(self)@.eats(direction) ==> final(self)@.body.len() == old(self)@.body.len()
                && updates@[1] == (Update { cell: old(self)@.tail(), occupied: false }),
    {
        let head: Cell = self.head().next(direction, &self.config);
        let mut updates: Vec<Update> = Vec::new();
        self.body.push(head);
        updates.push(Update { cell: head, occupied: true });
        if head != self.food {
            let tail: Cell = self.body.remove(0);
            updates.push(Update { cell: tail, occupied: false });
        } else {
            self.food = new_food;
            updates.push(Update { cell: new_food, occupied: true });
        }
        proof {
            assert(self.body@ =~= old(self)@.body_after(direction));
            assert(updates@ =~= old(self)@.updates_after(direction, new_food));
        }
        updates
    }

    /// One tick in `direction`, with two numbers drawn beforehand from
    /// which the food's new cell is taken if the head reaches the food.
    pub fn advance(&mut self, direction: Direction, draw_x: usize, draw_y: usize) -> (updates:
        Vec<Update>)
        requires
            old(self).wf(),
        ensures
            final(self).wf(),
            final(self)@ == old(self)@.after_tick(
                direction,
                spec_food_cell(draw_x, draw_y, old(self)@.config),
            ),
            updates@ == old(self)@.updates_after(
                direction,
                spec_food_cell(draw_x, draw_y, old(self)@.config),
            ),
    {
        let new_food: Cell = food_cell(draw_x, draw_y, &self.config);
        self.advance_to(direction, new_food)
    }

    /// One tick in `direction`. If the head reaches the food, the food
    /// moves to a cell of the grid that is drawn at random, which may be a
    /// cell of the snake; everything else is as `advance_to` says, for the
    /// cell that was drawn.
    pub fn tick(&mut self, direction: Direction) -> (updates: Vec<Update>)
        requires
            old(self).wf(),
        ensures
            final(self).wf(),
            final(self)@ == old(self)@.after_tick(direction, final(self)@.food),
            updates@ == old(self)@.updates_after(direction, final(self)@.food),
            updates@.len() == 2,
            final(self)@.config == old(self)@.config,
            final(self)@.body == old(self)@.body_after(direction),
            old(self)@.eats(direction) ==> final(self)@.food.in_grid(old(self)@.config),
            !old(self)@.eats(direction) ==> final(self)@.food == old(self)@.food,
    {
        if self.will_eat(direction) {
            let draw_x: usize = draw();
            let draw_y: usize = draw();
            self.advance(direction, draw_x, draw_y)
        } else {
            let food: Cell = self.food;
            self.advance_to(direction, food)
        }
    }
}

/// A tick keeps a game well formed, and the new head is the last cell of
/// the body.
pub proof fn lemma_tick_keeps_wf(game: GameView, direction: Direction, new_food: Cell)
    requires
        game.wf(),
    ensures
        game.after_tick(direction, new_food).wf(),
        game.after_tick(direction, new_food).head() == game.next_head(direction),
        game.after_tick(direction, new_food).head().in_grid(game.config),
{
}

/// On a tick that brings the head onto the food the body grows by exactly
/// one cell, keeps every cell that it had, and no cell is redrawn as empty.
/// On any other tick the body keeps its length, loses its oldest cell, and
/// exactly one cell is redrawn as empty: the one that the tail has left.
pub proof fn lemma_growth(game: GameView, direction: Direction, new_food: Cell)
    requires
        game.wf(),
    ensures
        game.eats(direction) ==> {
            &&& game.after_tick(direction, new_food).body.len() == game.body.len() + 1
            &&& game.after_tick(direction, new_food).body.drop_last() == game.body
            &&& forall|i: int|
                0 <= i < game.updates_after(direction, new_food).len() ==> (
                #[trigger] game.updates_after(direction, new_food)[i]).occupied
        },
        !game.eats(direction) ==> {
            &&& game.after_tick(direction, new_food).body.len() == game.body.len()
            &&& game.after_tick(direction, new_food).body.drop_last() == game.body.drop_first()
            &&& game.after_tick(direction, new_food).food == game.food
            &&& forall|i: int|
                0 <= i < game.updates_after(direction, new_food).len() ==> (!(
                #[trigger] game.updates_after(direction, new_food)[i]).occupied <==> i == 1)
            &&& game.updates_after(direction, new_food)[1].cell == game.tail()
        },
{
    let after = game.after_tick(direction, new_food);
    if game.eats(direction) {
        assert(after.body.drop_last() =~= game.body);
    } else {
        assert(after.body.drop_last() =~= game.body.drop_first());
    }
}

/// Every tick redraws exactly two cells: first the new head, as occupied,
/// then either the food's new cell or the cell that the tail has left.
pub proof fn lemma_two_updates(game: GameView, direction: Direction, new_food: Cell)
    requires
        game.wf(),
    ensures
        game.updates_after(direction, new_food).len() == 2,
        game.updates_after(direction, new_food)[0] == (Update {
            cell: game.after_tick(direction, new_food).head(),
            occupied: true,
        }),
        game.updates_after(direction, new_food)[1] == if game.eats(direction) {
            Update { cell: game.after_tick(direction, new_food).food, occupied: true }
        } else {
            Update { cell: game.tail(), occupied: false }
        },
{
}

/// Whether every cell of the body and the food lie on the grid.
pub open spec fn all_on_grid(game: GameView) -> bool {
    &&& game.food.in_grid(game.config)
    &&& forall|i: int| 0 <= i < game.body.len() ==> (#[trigger] game.body[i]).in_grid(game.config)
}

/// A game whose cells all lie on the grid keeps them there, as long as the
/// food is only moved to cells of the grid.
pub proof fn lemma_tick_stays_on_grid(game: GameView, direction: Direction, new_food: Cell)
    requires
        game.wf(),
        all_on_grid(game),
        new_food.in_grid(game.config),
    ensures
        all_on_grid(game.after_tick(direction, new_food)),
{
}

} // verus!
