//! The session controller: the mode state machine that sits between the
//! input events and the automaton engine.
//!
//! A session is in exactly one of four modes. Each frame consumes at most
//! one input event, updates the mode and its transient state, and mutates
//! the grid through the engine's operations only: random seeding on entering
//! a running game, clearing on every menu frame and on entering the editor,
//! and single-cell writes while editing.

use vstd::prelude::*;
use crate::grid::Grid;
use crate::grid::grid_written;

verus! {

/// Number of grid columns of a session's board.
pub const GRID_WIDTH: usize = 70;

/// Number of grid rows of a session's board.
pub const GRID_HEIGHT: usize = 67;

/// Side of one cell on screen, in pixels; pointer coordinates are divided
/// by it to reach a cell.
pub const CELL_PIXELS: u64 = 10;

/// Number of selectable menu options.
pub const OPTION_COUNT: u8 = 4;

/// A discrete input event, decoupled from any key or button binding.
/// Pointer coordinates are absolute pixels and may be negative near the
/// window edges; the controller clamps them.
#[derive(Clone, Copy, Debug, PartialEq, Eq, Structural)]
pub enum InputEvent {
    NavigateUp,
    NavigateDown,
    Confirm,
    Escape,
    PointerMove(i64, i64),
    PrimaryButtonDown,
    PrimaryButtonUp,
    SecondaryButtonDown,
    SecondaryButtonUp,
}

/// What the caller should do after a frame: keep going, or end the process.
#[derive(Clone, Copy, Debug, PartialEq, Eq, Structural)]
pub enum FrameOutcome {
    Continue,
    Quit,
}

/// The menu's transient state: which option is highlighted.
#[derive(Clone, Copy, Debug, PartialEq, Eq, Structural)]
pub struct MenuState {
    pub selection: u8,
}

/// Selection moved one step up, clamped at the first option.
pub open spec fn nav_up_spec(sel: int) -> int {
    if sel == 0 {
        0
    } else {
        sel - 1
    }
}

/// Selection moved one step down, clamped at the last option.
pub open spec fn nav_down_spec(sel: int, last: int) -> int {
    if sel >= last {
        last
    } else {
        sel + 1
    }
}

impl MenuState {
    /// A fresh menu, with the first option highlighted.
    pub fn new() -> (m: MenuState)
        ensures
            m.selection == 0,
    {
        MenuState { selection: 0 }
    }

    /// Moves the selection up; at the first option it stays put rather than
    /// wrapping.
    pub fn navigate_up(&mut self)
        ensures
            final(self).selection as int == nav_up_spec(old(self).selection as int),
    {
        if self.selection > 0 {
            self.selection = self.selection - 1;
        }
    }

    /// Moves the selection down; at the last option it stays put rather
    /// than wrapping.
    pub fn navigate_down(&mut self)
        requires
            old(self).selection < OPTION_COUNT,
        ensures
            final(self).selection as int == nav_down_spec(
                old(self).selection as int,
                OPTION_COUNT as int - 1,
            ),
    {
        if self.selection < OPTION_COUNT - 1 {
            self.selection = self.selection + 1;
        }
    }

    /// Whether option `i` is the highlighted one.
    pub fn is_highlighted(&self, i: u8) -> (r: bool)
        ensures
            r == (i == self.selection),
    {
        i == self.selection
    }
}

/// Navigation clamps instead of wrapping: from any in-range selection, one
/// step up or down lands in range again, a step up from the first option
/// stays at the first, and a step down from the last stays at the last. So
/// no run of navigation events can leave `[0, OPTION_COUNT - 1]`.
pub proof fn lemma_menu_navigation_clamps(sel: int)
    requires
        0 <= sel < OPTION_COUNT,
    ensures
        0 <= nav_up_spec(sel) < OPTION_COUNT,
        0 <= nav_down_spec(sel, OPTION_COUNT as int - 1) < OPTION_COUNT,
        sel == 0 ==> nav_up_spec(sel) == 0,
        sel == OPTION_COUNT as int - 1 ==> nav_down_spec(sel, OPTION_COUNT as int - 1) == sel,
{
}

/// The menu's title line.
pub fn menu_title() -> (title: &'static str)
    ensures
        title@ == "CONWAY-RS"@,
{
    "CONWAY-RS"
}

/// The label of menu option `i`, in display order: the random game, the
/// custom game, the about line, and quit.
pub fn option_label(i: u8) -> (label: &'static str)
    requires
        i < OPTION_COUNT,
    ensures
        i == 0 ==> label@ == "RANDOM GAME"@,
        i == 1 ==> label@ == "CUSTOM GAME"@,
        i == 2 ==> label@ == "ABOUT"@,
        i == 3 ==> label@ == "QUIT"@,
{
    if i == 0 {
        "RANDOM GAME"
    } else if i == 1 {
        "CUSTOM GAME"
    } else if i == 2 {
        "ABOUT"
    } else {
        "QUIT"
    }
}

/// The one-line help text shown under each mode; the reserved mode shows
/// nothing.
pub fn help_line(mode: &Mode) -> (help: &'static str)
    ensures
        mode is Menu ==> help@ == "UP/DOWN: MOVE - ENTER: SELECT"@,
        mode is Running ==> help@ == "GAME IS RUNNING - PRESS ESC TO OPEN MENU"@,
        mode is Custom ==> help@ == "LEFT/RIGHT MOUSE: DRAW/ERASE - ENTER: START - ESC: MENU"@,
        mode is Paused ==> help@ == ""@,
{
    match mode {
        Mode::Menu(_) => "UP/DOWN: MOVE - ENTER: SELECT",
        Mode::Running => "GAME IS RUNNING - PRESS ESC TO OPEN MENU",
        Mode::Custom(_) => "LEFT/RIGHT MOUSE: DRAW/ERASE - ENTER: START - ESC: MENU",
        Mode::Paused => "",
    }
}

/// The editor's transient state: the draw and erase flags, the pointer in
/// pixel space, and the cell under the pointer, already clamped into the
/// grid.
#[derive(Clone, Copy, Debug, PartialEq, Eq, Structural)]
pub struct EditState {
    pub draw_flag: bool,
    pub erase_flag: bool,
    pub pixel_x: i64,
    pub pixel_y: i64,
    pub cell_x: usize,
    pub cell_y: usize,
}

/// The cell a pixel coordinate falls in: negative pixels clamp to 0 before
/// the division by the cell size, and a cell past the edge clamps to the
/// last one.
pub open spec fn pixel_to_cell_spec(px: int, dim: int) -> int {
    let clamped = if px < 0 {
        0
    } else {
        px
    };
    let cell = clamped / (CELL_PIXELS as int);
    if cell >= dim {
        dim - 1
    } else {
        cell
    }
}

/// The clamped conversion always lands inside the grid, whatever the pixel
/// coordinate.
pub proof fn lemma_pointer_clamp(px: int, dim: int)
    requires
        1 <= dim,
    ensures
        0 <= pixel_to_cell_spec(px, dim) < dim,
{
}

/// Converts one pointer coordinate to the cell it falls in, clamped into
/// `[0, dim - 1]`.
pub fn pixel_to_cell(px: i64, dim: usize) -> (cell: usize)
    requires
        1 <= dim,
    ensures
        cell as int == pixel_to_cell_spec(px as int, dim as int),
        cell < dim,
{
    let clamped: i64 = if px < 0 {
        0
    } else {
        px
    };
    let scaled: u64 = (clamped as u64) / CELL_PIXELS;
    let d: u64 = dim as u64;
    if scaled >= d {
        dim - 1
    } else {
        scaled as usize
    }
}

impl EditState {
    /// The edit state on entering the editor: no button held, pointer at
    /// the origin.
    pub fn new() -> (e: EditState)
        ensures
            e == initial_edit_spec(),
    {
        EditState { draw_flag: false, erase_flag: false, pixel_x: 0, pixel_y: 0, cell_x: 0, cell_y: 0 }
    }

    /// The cached cell cursor is the clamped conversion of the pixel
    /// cursor, for a grid of the given dimensions.
    pub open spec fn wf(&self, w: int, h: int) -> bool {
        &&& self.cell_x as int == pixel_to_cell_spec(self.pixel_x as int, w)
        &&& self.cell_y as int == pixel_to_cell_spec(self.pixel_y as int, h)
    }
}

/// The edit state on entering the editor.
pub open spec fn initial_edit_spec() -> EditState {
    EditState { draw_flag: false, erase_flag: false, pixel_x: 0, pixel_y: 0, cell_x: 0, cell_y: 0 }
}

/// The edit state after one input event: pointer moves update the cursor
/// and its clamped cell, button edges set and reset the flags, and every
/// other event leaves the editor state alone.
pub open spec fn edit_after_input(
    e: EditState,
    input: Option<InputEvent>,
    w: int,
    h: int,
) -> EditState {
    match input {
        Some(InputEvent::PointerMove(px, py)) => (EditState {
            draw_flag: e.draw_flag,
            erase_flag: e.erase_flag,
            pixel_x: px,
            pixel_y: py,
            cell_x: pixel_to_cell_spec(px as int, w) as usize,
            cell_y: pixel_to_cell_spec(py as int, h) as usize,
        }),
        Some(InputEvent::PrimaryButtonDown) => (EditState { draw_flag: true, ..e }),
        Some(InputEvent::PrimaryButtonUp) => (EditState { draw_flag: false, ..e }),
        Some(InputEvent::SecondaryButtonDown) => (EditState { erase_flag: true, ..e }),
        Some(InputEvent::SecondaryButtonUp) => (EditState { erase_flag: false, ..e }),
        _ => e,
    }
}

/// The deliberate tie-break: when the draw and erase flags are both set,
/// the erase flag is forced off and drawing wins.
pub open spec fn edit_after_precedence(e: EditState) -> EditState {
    if e.draw_flag && e.erase_flag {
        EditState { erase_flag: false, ..e }
    } else {
        e
    }
}

/// Draw takes precedence over erase: after the tie-break the two flags are
/// never both set, the draw flag and the cursor are untouched, and the
/// erase flag survives only when drawing was off.
pub proof fn lemma_draw_precedence(e: EditState)
    ensures
        !(edit_after_precedence(e).draw_flag && edit_after_precedence(e).erase_flag),
        edit_after_precedence(e).draw_flag == e.draw_flag,
        edit_after_precedence(e).erase_flag == (e.erase_flag && !e.draw_flag),
        edit_after_precedence(e).pixel_x == e.pixel_x,
        edit_after_precedence(e).pixel_y == e.pixel_y,
        edit_after_precedence(e).cell_x == e.cell_x,
        edit_after_precedence(e).cell_y == e.cell_y,
{
}

/// The four session modes. `Paused` is reserved: declared, but no
/// transition reaches or leaves it.
#[derive(Clone, Copy, Debug, PartialEq, Eq, Structural)]
pub enum Mode {
    Menu(MenuState),
    Running,
    Custom(EditState),
    Paused,
}

/// The whole interactive session: the board, the mode with its transient
/// state, and the generation counter.
pub struct Session {
    pub grid: Grid,
    pub mode: Mode,
    pub generation: u64,
}

/// The mode a menu frame ends in: navigation moves the clamped selection,
/// confirm starts a game or stays put, and everything else leaves the menu
/// as it is.
pub open spec fn menu_next_mode(sel: int, input: Option<InputEvent>) -> Mode {
    match input {
        Some(InputEvent::NavigateUp) => Mode::Menu(
            MenuState { selection: nav_up_spec(sel) as u8 },
        ),
        Some(InputEvent::NavigateDown) => Mode::Menu(
            MenuState { selection: nav_down_spec(sel, OPTION_COUNT as int - 1) as u8 },
        ),
        Some(InputEvent::Confirm) => {
            if sel == 0 {
                Mode::Running
            } else if sel == 1 {
                Mode::Custom(initial_edit_spec())
            } else {
                Mode::Menu(MenuState { selection: sel as u8 })
            }
        },
        _ => Mode::Menu(MenuState { selection: sel as u8 }),
    }
}

/// Whether a menu frame ends the process: confirming the quit option, or
/// pressing escape in the menu.
pub open spec fn menu_outcome(sel: int, input: Option<InputEvent>) -> FrameOutcome {
    match input {
        Some(InputEvent::Confirm) => if sel == 3 {
            FrameOutcome::Quit
        } else {
            FrameOutcome::Continue
        },
        Some(InputEvent::Escape) => FrameOutcome::Quit,
        _ => FrameOutcome::Continue,
    }
}

/// Everything one menu frame does: the generation counter is reset, the
/// board is cleared (then reseeded at random when a running game starts, so
/// only its shape is promised there), and the mode and outcome follow the
/// selection and the event.
pub open spec fn menu_frame_rel(
    pre: Session,
    input: Option<InputEvent>,
    post: Session,
    outcome: FrameOutcome,
) -> bool {
    let sel = pre.mode->Menu_0.selection as int;
    &&& post.grid.same_dims(&pre.grid)
    &&& post.generation == 0
    &&& post.mode == menu_next_mode(sel, input)
    &&& outcome == menu_outcome(sel, input)
    &&& (!(input == Some(InputEvent::Confirm) && sel == 0) ==> post.grid.all_dead())
}

/// Everything one running frame does: escape returns to a fresh menu and
/// touches nothing else; any other frame advances the board exactly one
/// generation and counts it.
pub open spec fn running_frame_rel(
    pre: Session,
    input: Option<InputEvent>,
    post: Session,
    outcome: FrameOutcome,
) -> bool {
    &&& post.grid.same_dims(&pre.grid)
    &&& outcome == FrameOutcome::Continue
    &&& (input == Some(InputEvent::Escape) ==> {
        &&& post.mode == Mode::Menu(MenuState { selection: 0 })
        &&& post.grid == pre.grid
        &&& post.generation == pre.generation
    })
    &&& (input != Some(InputEvent::Escape) ==> {
        &&& post.mode == Mode::Running
        &&& post.generation == pre.generation + 1
        &&& forall|x: int, y: int|
            0 <= x < pre.grid.spec_width() && 0 <= y < pre.grid.spec_height() ==> post.grid.at(
                x,
                y,
            ) == pre.grid.stepped_at(x, y)
    })
}

/// The mode a custom frame ends in: confirm starts the running game on the
/// edited board, escape returns to a fresh menu, and anything else stays in
/// the editor with the updated edit state.
pub open spec fn custom_next_mode(e: EditState, input: Option<InputEvent>) -> Mode {
    match input {
        Some(InputEvent::Confirm) => Mode::Running,
        Some(InputEvent::Escape) => Mode::Menu(MenuState { selection: 0 }),
        _ => Mode::Custom(e),
    }
}

/// Everything one custom frame does: the event updates the edit state, the
/// draw-over-erase tie-break is applied, then a held draw writes the cell
/// under the cursor alive (a held erase writes it dead, and with neither
/// the board is untouched), and finally confirm or escape leaves the
/// editor. The generation counter is not touched.
pub open spec fn custom_frame_rel(
    pre: Session,
    input: Option<InputEvent>,
    post: Session,
    outcome: FrameOutcome,
) -> bool {
    let e = edit_after_precedence(
        edit_after_input(
            pre.mode->Custom_0,
            input,
            pre.grid.spec_width(),
            pre.grid.spec_height(),
        ),
    );
    &&& outcome == FrameOutcome::Continue
    &&& post.generation == pre.generation
    &&& post.mode == custom_next_mode(e, input)
    &&& (e.draw_flag ==> grid_written(pre.grid, post.grid, e.cell_x as int, e.cell_y as int, true))
    &&& (!e.draw_flag && e.erase_flag ==> grid_written(
        pre.grid,
        post.grid,
        e.cell_x as int,
        e.cell_y as int,
        false,
    ))
    &&& (!e.draw_flag && !e.erase_flag ==> post.grid == pre.grid)
}

impl Session {
    /// A session is well-formed when its grid is, and when the transient
    /// state of its mode fits the grid: the menu selection is in range, and
    /// the editor's cell cursor is the clamped image of its pixel cursor.
    pub open spec fn wf(&self) -> bool {
        &&& self.grid.wf()
        &&& (self.mode matches Mode::Menu(m) ==> m.selection < OPTION_COUNT)
        &&& (self.mode matches Mode::Custom(e) ==> e.wf(
            self.grid.spec_width(),
            self.grid.spec_height(),
        ))
    }

    /// Starts a session: an all-dead board of the fixed dimensions, the
    /// menu open on its first option, the generation counter at zero.
    pub fn new() -> (s: Session)
        ensures
            s.wf(),
            s.grid.spec_width() == GRID_WIDTH,
            s.grid.spec_height() == GRID_HEIGHT,
            s.grid.all_dead(),
            s.mode == Mode::Menu(MenuState { selection: 0u8 }),
            s.generation == 0,
    {
        Session {
            grid: Grid::new(GRID_WIDTH, GRID_HEIGHT),
            mode: Mode::Menu(MenuState::new()),
            generation: 0,
        }
    }

    /// One menu frame: reset the generation counter, clear the board, then
    /// follow the event.
    pub fn menu_frame(&mut self, input: Option<InputEvent>) -> (outcome: FrameOutcome)
        requires
            old(self).wf(),
            old(self).mode is Menu,
        ensures
            final(self).wf(),
            menu_frame_rel(*old(self), input, *final(self), outcome),
    {
        self.generation = 0;
        self.grid.clear();
        let sel: u8 = match &self.mode {
            Mode::Menu(m) => m.selection,
            _ => 0,
        };
        match input {
            Some(InputEvent::NavigateUp) => {
                let mut m = MenuState { selection: sel };
                m.navigate_up();
                self.mode = Mode::Menu(m);
                FrameOutcome::Continue
            },
            Some(InputEvent::NavigateDown) => {
                let mut m = MenuState { selection: sel };
                m.navigate_down();
                self.mode = Mode::Menu(m);
                FrameOutcome::Continue
            },
            Some(InputEvent::Confirm) => {
                if sel == 0 {
                    self.mode = Mode::Running;
                    self.grid.seed_random();
                    FrameOutcome::Continue
                } else if sel == 1 {
                    self.mode = Mode::Custom(EditState::new());
                    self.grid.clear();
                    FrameOutcome::Continue
                } else if sel == 3 {
                    FrameOutcome::Quit
                } else {
                    FrameOutcome::Continue
                }
            },
            Some(InputEvent::Escape) => FrameOutcome::Quit,
            _ => FrameOutcome::Continue,
        }
    }

    /// One running frame: escape opens the menu; otherwise the board
    /// advances one generation and the counter follows.
    pub fn running_frame(&mut self, input: Option<InputEvent>) -> (outcome: FrameOutcome)
        requires
            old(self).wf(),
            old(self).mode is Running,
            old(self).generation < u64::MAX,
        ensures
            final(self).wf(),
            running_frame_rel(*old(self), input, *final(self), outcome),
    {
        match input {
            Some(InputEvent::Escape) => {
                self.mode = Mode::Menu(MenuState::new());
                FrameOutcome::Continue
            },
            _ => {
                self.grid.step();
                self.generation = self.generation + 1;
                FrameOutcome::Continue
            },
        }
    }

    /// One editor frame: the event updates the cursor and the flags, draw
    /// wins its tie against erase, a held button paints the cell under the
    /// cursor, and confirm or escape leaves the editor.
    pub fn custom_frame(&mut self, input: Option<InputEvent>) -> (outcome: FrameOutcome)
        requires
            old(self).wf(),
            old(self).mode is Custom,
        ensures
            final(self).wf(),
            custom_frame_rel(*old(self), input, *final(self), outcome),
    {
        let w: usize = self.grid.width();
        let h: usize = self.grid.height();
        let mut e: EditState = match &self.mode {
            Mode::Custom(es) => *es,
            _ => EditState::new(),
        };
        match input {
            Some(InputEvent::PointerMove(px, py)) => {
                e.pixel_x = px;
                e.pixel_y = py;
                e.cell_x = pixel_to_cell(px, w);
                e.cell_y = pixel_to_cell(py, h);
            },
            Some(InputEvent::PrimaryButtonDown) => {
                e.draw_flag = true;
            },
            Some(InputEvent::PrimaryButtonUp) => {
                e.draw_flag = false;
            },
            Some(InputEvent::SecondaryButtonDown) => {
                e.erase_flag = true;
            },
            Some(InputEvent::SecondaryButtonUp) => {
                e.erase_flag = false;
            },
            _ => {},
        }
        if e.draw_flag && e.erase_flag {
            e.erase_flag = false;
        }
        if e.draw_flag {
            self.grid.write_cell(e.cell_x, e.cell_y, true);
        } else if e.erase_flag {
            self.grid.write_cell(e.cell_x, e.cell_y, false);
        }
        match input {
            Some(InputEvent::Confirm) => {
                self.mode = Mode::Running;
            },
            Some(InputEvent::Escape) => {
                self.mode = Mode::Menu(MenuState::new());
            },
            _ => {
                self.mode = Mode::Custom(e);
            },
        }
        FrameOutcome::Continue
    }

    /// One frame of the session: dispatches on the active mode. The
    /// reserved `Paused` mode does nothing.
    pub fn frame(&mut self, input: Option<InputEvent>) -> (outcome: FrameOutcome)
        requires
            old(self).wf(),
            old(self).mode is Running ==> old(self).generation < u64::MAX,
        ensures
            final(self).wf(),
            old(self).mode is Menu ==> menu_frame_rel(*old(self), input, *final(self), outcome),
            old(self).mode is Running ==> running_frame_rel(
                *old(self),
                input,
                *final(self),
                outcome,
            ),
            old(self).mode is Custom ==> custom_frame_rel(*old(self), input, *final(self), outcome),
            old(self).mode is Paused ==> *final(self) == *old(self) && outcome
                == FrameOutcome::Continue,
    {
        match &self.mode {
            Mode::Menu(_) => self.menu_frame(input),
            Mode::Running => self.running_frame(input),
            Mode::Custom(_) => self.custom_frame(input),
            Mode::Paused => FrameOutcome::Continue,
        }
    }
}

/// Draw wins over erase all the way to the board: in an editor frame whose
/// effective edit state has both buttons held, the cell under the cursor
/// comes out alive, never dead.
pub proof fn lemma_conflict_writes_alive(
    pre: Session,
    input: Option<InputEvent>,
    post: Session,
    outcome: FrameOutcome,
)
    requires
        pre.wf(),
        pre.mode is Custom,
        custom_frame_rel(pre, input, post, outcome),
        edit_after_input(
            pre.mode->Custom_0,
            input,
            pre.grid.spec_width(),
            pre.grid.spec_height(),
        ).draw_flag,
        edit_after_input(
            pre.mode->Custom_0,
            input,
            pre.grid.spec_width(),
            pre.grid.spec_height(),
        ).erase_flag,
    ensures
        post.grid.at(
            edit_after_input(
                pre.mode->Custom_0,
                input,
                pre.grid.spec_width(),
                pre.grid.spec_height(),
            ).cell_x as int,
            edit_after_input(
                pre.mode->Custom_0,
                input,
                pre.grid.spec_width(),
                pre.grid.spec_height(),
            ).cell_y as int,
        ),
{
}

} // verus!
