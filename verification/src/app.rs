//! The state of the program and what each event does to it.
//!
//! The state is a grid and the place where the pointer was last seen. A
//! pointer movement stores the new place, a press of the left button flips
//! the cell under the pointer, and a request to render is answered with a
//! frame: the cell to highlight and the outline of the grid. Nothing here
//! draws or waits; whoever runs the event loop hands the events in and draws
//! the frames that come out.

use vstd::prelude::*;
use crate::contour::{contour, outline, Stroke};
use crate::grid::{toggled, Grid};
use crate::pointer::{cell_of_pixel, pixel_to_cell, Cell};

verus! {

/// The number of rows of the grid.
pub const CELL_ROWS: usize = 12;

/// The number of columns of the grid.
pub const CELL_COLS: usize = 16;

/// The width and height of a cell in pixels.
pub const CELL_SIZE: u32 = 32;

/// Whether cell (`r`, `c`) belongs to the glider that a new grid starts with.
pub open spec fn glider_cell(r: int, c: int) -> bool {
    (r == 5 && 6 <= c <= 8) || (r == 4 && c == 8) || (r == 3 && c == 7)
}

/// The grid that the program starts with: a glider on an otherwise empty
/// grid of `CELL_ROWS` by `CELL_COLS` cells.
pub open spec fn glider() -> Seq<Seq<bool>> {
    Seq::new(
        CELL_ROWS as nat,
        |r: int| Seq::new(CELL_COLS as nat, |c: int| glider_cell(r, c)),
    )
}

/// What an event loop can tell the program.
#[derive(Clone, Copy, Debug, PartialEq, Eq, Structural)]
pub enum Event {
    /// The window wants to be drawn.
    Render,
    /// The pointer is now at pixel (`x`, `y`).
    MouseMove { x: u32, y: u32 },
    /// The left button went down.
    LeftPress,
    /// Anything else.
    Other,
}

/// What to draw for one frame, on a cleared canvas: first the highlight of
/// the cell under the pointer, then the strokes in their order.
#[derive(Debug)]
pub struct Frame {
    /// The cell under the pointer. It may lie outside the grid.
    pub cursor: Cell,
    /// The outline of the grid.
    pub strokes: Vec<Stroke>,
}

/// The state of the program.
pub struct App {
    map: Grid,
    last_mouse_pos: (u32, u32),
}

/// The mathematical picture of the state.
pub struct AppView {
    /// The rows of the grid.
    pub cells: Seq<Seq<bool>>,
    /// The number of columns of the grid.
    pub cols: nat,
    /// The pixel where the pointer was last seen, as (`x`, `y`).
    pub pointer: (int, int),
}

impl AppView {
    /// The row and the column of the cell under the pointer.
    pub open spec fn pointed_cell(self) -> (int, int) {
        cell_of_pixel(self.pointer.0, self.pointer.1, CELL_SIZE as int)
    }

    /// The state after the pointer has moved to pixel (`x`, `y`).
    pub open spec fn moved(self, x: int, y: int) -> AppView {
        AppView { pointer: (x, y), ..self }
    }

    /// The state after a press of the left button: the cell under the
    /// pointer is flipped if the grid has it.
    pub open spec fn clicked(self) -> AppView {
        AppView {
            cells: toggled(self.cells, self.pointed_cell().0, self.pointed_cell().1),
            ..self
        }
    }

    /// The state after `event`.
    pub open spec fn after(self, event: Event) -> AppView {
        match event {
            Event::MouseMove { x, y } => self.moved(x as int, y as int),
            Event::LeftPress => self.clicked(),
            Event::Render | Event::Other => self,
        }
    }

    /// Whether `frame` is what this state shows.
    pub open spec fn shows(self, frame: Frame) -> bool {
        &&& (frame.cursor.row as int, frame.cursor.col as int) == self.pointed_cell()
        &&& frame.strokes@ == outline(self.cells, self.cols)
    }
}

/// A second press on the same spot undoes the first.
pub proof fn lemma_click_twice(state: AppView)
    ensures
        state.clicked().clicked() == state,
{
    let (r, c) = state.pointed_cell();
    crate::grid::lemma_toggle_twice(state.cells, r, c);
}

impl View for App {
    type V = AppView;

    closed spec fn view(&self) -> AppView {
        AppView {
            cells: self.map@,
            cols: self.map.cols() as nat,
            pointer: (self.last_mouse_pos.0 as int, self.last_mouse_pos.1 as int),
        }
    }
}

impl App {
    /// The state that the program starts in: the glider, and the pointer at
    /// the upper left corner.
    pub fn new() -> (app: App)
        ensures
            app@ == (AppView { cells: glider(), cols: CELL_COLS as nat, pointer: (0, 0) }),
    {
        let mut map: Grid = Grid::new(CELL_ROWS, CELL_COLS).unwrap();
        map.toggle(5, 6);
        map.toggle(5, 7);
        map.toggle(5, 8);
        map.toggle(4, 8);
        map.toggle(3, 7);
        proof {
            assert(map@ =~~= glider());
        }
        App { map, last_mouse_pos: (0, 0) }
    }

    /// The grid.
    pub fn grid(&self) -> (grid: &Grid)
        ensures
            grid@ == self@.cells,
            grid.cols() == self@.cols,
    {
        &self.map
    }

    /// The pixel where the pointer was last seen, as (`x`, `y`).
    pub fn pointer(&self) -> (at: (u32, u32))
        ensures
            (at.0 as int, at.1 as int) == self@.pointer,
    {
        self.last_mouse_pos
    }

    /// Stores the place of the pointer as it is given.
    pub fn handle_mouse_move(&mut self, x: u32, y: u32)
        ensures
            final(self)@ == old(self)@.moved(x as int, y as int),
    {
        self.last_mouse_pos = (x, y);
    }

    /// Flips the cell under the pointer. Where the pointer is outside the
    /// grid, nothing changes.
    pub fn handle_mouse_click(&mut self)
        ensures
            final(self)@ == old(self)@.clicked(),
    {
        let cell: Cell = pixel_to_cell(self.last_mouse_pos.0, self.last_mouse_pos.1, CELL_SIZE);
        self.map.toggle(cell.row, cell.col);
    }

    /// What to draw for the state as it is: the cell under the pointer and
    /// the outline of the grid. The state is not changed.
    pub fn render(&self) -> (frame: Frame)
        ensures
            self@.shows(frame),
    {
        let cursor: Cell = pixel_to_cell(self.last_mouse_pos.0, self.last_mouse_pos.1, CELL_SIZE);
        let strokes: Vec<Stroke> = contour(&self.map);
        Frame { cursor, strokes }
    }

    /// Takes one event: changes the state as the event asks, and hands out a
    /// frame if and only if the event is a request to render.
    pub fn handle_event(&mut self, event: Event) -> (frame: Option<Frame>)
        ensures
            final(self)@ == old(self)@.after(event),
            frame is Some <==> event is Render,
            frame matches Some(f) ==> old(self)@.shows(f),
    {
        match event {
            Event::Render => Some(self.render()),
            Event::MouseMove { x, y } => {
                self.handle_mouse_move(x, y);
                None
            },
            Event::LeftPress => {
                self.handle_mouse_click();
                None
            },
            Event::Other => None,
        }
    }
}

} // verus!
