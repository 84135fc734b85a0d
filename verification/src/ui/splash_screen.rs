//! The splash screen: a letter that is swept onto the screen and off it.

use vstd::prelude::*;
use vstd::string::StrSliceExecFns;
use crate::ui::control_scheme::KeyCode;
use crate::ui::ui_callback::UiCallbackPreset;

verus! {

/// How far the sweep has come.
#[derive(Debug, PartialEq, Eq, Structural, Clone, Copy)]
pub enum State {
    Start,
    Sweep,
    Wait,
    Unsweep,
    Done,
}

#[derive(Debug, PartialEq, Eq, Structural, Clone, Copy)]
pub enum Direction {
    SouthWest,
}

/// The colours that the title can have.
#[derive(Debug, PartialEq, Eq, Structural, Clone, Copy)]
pub enum SplashColor {
    Red,
    Yellow,
    Magenta,
    Green,
    Blue,
}

/// The splash screen: the outline of the letter, what is shown of it so
/// far, and how far the sweep has come.
#[derive(Debug, PartialEq, Eq)]
pub struct SplashScreen {
    pub outline: Vec<Vec<bool>>,
    pub contents: Vec<Vec<char>>,
    pub state: State,
    pub tick: u32,
    pub direction: Direction,
    pub title: &'static str,
    pub title_color: SplashColor,
    pub refresh_rate: u16,
}

pub const BYLINE: &'static str = "from liv, with love";

/// A dot that has grown once.
pub const BULB: char = '\u{25cf}';

/// A dot that has grown twice.
pub const BLOOM: char = '\u{203b}';

impl Default for State {
    fn default() -> (state: Self)
        ensures
            state == State::Start,
    {
        State::Start
    }
}

impl Default for Direction {
    fn default() -> (direction: Self)
        ensures
            direction == Direction::SouthWest,
    {
        Direction::SouthWest
    }
}

/// The rows of a grid, each as the row of its cells.
pub open spec fn spec_grid<A>(grid: Seq<Vec<A>>) -> Seq<Seq<A>> {
    grid.map_values(|row: Vec<A>| row@)
}

/// A cell one step older. While the letter is swept on, a dot grows in two
/// steps into the letter; while it is swept off, it shrinks the same way
/// and is gone; whatever else there is, is wiped.
pub open spec fn spec_aged(state: State, ch: char) -> char {
    match state {
        State::Sweep => if ch == '.' {
            BULB
        } else if ch == BULB {
            BLOOM
        } else if ch == BLOOM || ch == 'Q' {
            'Q'
        } else {
            ' '
        },
        State::Unsweep => if ch == 'Q' {
            'Q'
        } else if ch == BULB {
            '.'
        } else if ch == BLOOM {
            BULB
        } else {
            ' '
        },
        _ => ch,
    }
}

/// A grid with every cell one step older.
pub open spec fn spec_aged_grid(state: State, grid: Seq<Seq<char>>) -> Seq<Seq<char>> {
    Seq::new(grid.len(), |r: int| Seq::new(grid[r].len(), |c: int| spec_aged(state, grid[r][c])))
}

/// What a cell must hold for the sweep to mark it.
pub open spec fn spec_target(state: State) -> char {
    if state == State::Unsweep {
        'Q'
    } else {
        ' '
    }
}

/// The mark that the sweep leaves.
pub open spec fn spec_mark(state: State) -> char {
    if state == State::Unsweep {
        BLOOM
    } else {
        '.'
    }
}

/// Whether the sweep marks the cell: it lies in both grids, belongs to the
/// letter and holds what the sweep looks for.
pub open spec fn spec_marks(
    outline: Seq<Seq<bool>>,
    grid: Seq<Seq<char>>,
    state: State,
    row: int,
    col: int,
) -> bool {
    &&& 0 <= row < outline.len()
    &&& row < grid.len()
    &&& 0 <= col < outline[row].len()
    &&& col < grid[row].len()
    &&& outline[row][col]
    &&& grid[row][col] == spec_target(state)
}

/// The grid after the sweep has gone on from its `i`-th step at the cell
/// `(row, col)`: it marks the cell where it is to, then goes one column on
/// and, every other step, one row down, as far as the grid reaches.
pub open spec fn spec_traced(
    outline: Seq<Seq<bool>>,
    grid: Seq<Seq<char>>,
    state: State,
    row: int,
    col: int,
    i: int,
    cols: int,
) -> Seq<Seq<char>>
    decreases cols - i,
{
    if i >= cols {
        grid
    } else {
        let marked = if spec_marks(outline, grid, state, row, col) {
            grid.update(row, grid[row].update(col, spec_mark(state)))
        } else {
            grid
        };
        let col_then = if col + 1 < cols {
            col + 1
        } else {
            col
        };
        let row_then = if i % 2 == 0 && row + 1 < outline.len() {
            row + 1
        } else {
            row
        };
        spec_traced(outline, marked, state, row_then, col_then, i + 1, cols)
    }
}

/// The width of the outline: the length of its first row.
pub open spec fn spec_cols(outline: Seq<Seq<bool>>) -> int {
    if outline.len() > 0 {
        outline[0].len() as int
    } else {
        0
    }
}

/// The row in which the sweep of the tick `tick` starts.
pub open spec fn spec_start_row(rows: int, tick: int) -> int {
    if tick > 2 * rows {
        let row = (tick - 2 * rows) / 2;
        if row == rows && rows > 0 {
            row - 1
        } else {
            row
        }
    } else {
        0
    }
}

/// The column in which the sweep of the tick `tick` starts, or the
/// largest column that can be counted, where it lies beyond.
pub open spec fn spec_start_col(rows: int, tick: int) -> int {
    if tick > 2 * rows {
        0
    } else if 2 * rows - tick > usize::MAX {
        usize::MAX as int
    } else {
        2 * rows - tick
    }
}

/// The tick after which a sweep is over.
pub open spec fn spec_threshold(outline: Seq<Seq<bool>>) -> int {
    outline.len() + spec_cols(outline) + 20
}

/// The picture of the letter: a cell belongs to the letter where its row
/// has a `Q`.
pub open spec fn spec_preset_q() -> Seq<Seq<char>> {
    seq![
        "                QQQQQQQQQQQQQQQQ                "@,
        "           QQQQQQQQQQQQQQQQQQQQQQQQQ            "@,
        "         QQQQQQQQQQQQQQQQQQQQQQQQQQQQQQ         "@,
        "      QQQQQQQQQQQ              QQQQQQQQQQ       "@,
        "     QQQQQQQQ                      QQQQQQQQ     "@,
        "   QQQQQQQQ                          QQQQQQQQ   "@,
        "  QQQQQQQQ                            QQQQQQQ   "@,
        "  QQQQQQQ                              QQQQQQQ  "@,
        " QQQQQQQ                                QQQQQQQ "@,
        " QQQQQQ                                 QQQQQQQ "@,
        "QQQQQQQ                                  QQQQQQ "@,
        "QQQQQQQ                                  QQQQQQ "@,
        "QQQQQQQ                                  QQQQQQ "@,
        " QQQQQQQ                                QQQQQQQ "@,
        " QQQQQQQ                                QQQQQQQ "@,
        "  QQQQQQQ                              QQQQQQQ  "@,
        "   QQQQQQQ                 QQQQ       QQQQQQQ   "@,
        "   QQQQQQQQ               QQQQQQQ   QQQQQQQQ    "@,
        "     QQQQQQQQQ             QQQQQQQQQQQQQQQQ     "@,
        "       QQQQQQQQQQQ           QQQQQQQQQQQQ       "@,
        "         QQQQQQQQQQQQQQQQQQQQQQQQQQQQQQQQQ      "@,
        "            QQQQQQQQQQQQQQQQQQQQQQQQQQQQQQQQQ   "@,
        "                  QQQQQQQQQQQQ        QQQQQQQQ  "@,
        "                                         QQQ    "@,
    ]
}

/// The picture of the letter, row by row.
pub fn preset_q() -> (rows: Vec<&'static str>)
    ensures
        rows@.len() == 24,
        rows@.map_values(|row: &'static str| row@) == spec_preset_q(),
{
    let rows = vec![
        "                QQQQQQQQQQQQQQQQ                ",
        "           QQQQQQQQQQQQQQQQQQQQQQQQQ            ",
        "         QQQQQQQQQQQQQQQQQQQQQQQQQQQQQQ         ",
        "      QQQQQQQQQQQ              QQQQQQQQQQ       ",
        "     QQQQQQQQ                      QQQQQQQQ     ",
        "   QQQQQQQQ                          QQQQQQQQ   ",
        "  QQQQQQQQ                            QQQQQQQ   ",
        "  QQQQQQQ                              QQQQQQQ  ",
        " QQQQQQQ                                QQQQQQQ ",
        " QQQQQQ                                 QQQQQQQ ",
        "QQQQQQQ                                  QQQQQQ ",
        "QQQQQQQ                                  QQQQQQ ",
        "QQQQQQQ                                  QQQQQQ ",
        " QQQQQQQ                                QQQQQQQ ",
        " QQQQQQQ                                QQQQQQQ ",
        "  QQQQQQQ                              QQQQQQQ  ",
        "   QQQQQQQ                 QQQQ       QQQQQQQ   ",
        "   QQQQQQQQ               QQQQQQQ   QQQQQQQQ    ",
        "     QQQQQQQQQ             QQQQQQQQQQQQQQQQ     ",
        "       QQQQQQQQQQQ           QQQQQQQQQQQQ       ",
        "         QQQQQQQQQQQQQQQQQQQQQQQQQQQQQQQQQ      ",
        "            QQQQQQQQQQQQQQQQQQQQQQQQQQQQQQQQQ   ",
        "                  QQQQQQQQQQQQ        QQQQQQQQ  ",
        "                                         QQQ    ",
    ];
    assert(rows@.map_values(|row: &'static str| row@) =~= spec_preset_q());
    rows
}

/// The titles that the splash screen can show.
pub open spec fn spec_titles() -> Seq<Seq<char>> {
    seq!["quietude"@, "quintessence"@, "quark"@]
}

/// The titles that the splash screen can show.
pub fn titles() -> (titles: Vec<&'static str>)
    ensures
        titles@.len() == 3,
        titles@.map_values(|title: &'static str| title@) == spec_titles(),
{
    let titles = vec!["quietude", "quintessence", "quark"];
    assert(titles@.map_values(|title: &'static str| title@) =~= spec_titles());
    titles
}

/// The colours that the title can have.
pub fn colors() -> (colors: Vec<SplashColor>)
    ensures
        colors@ == seq![
            SplashColor::Red,
            SplashColor::Yellow,
            SplashColor::Magenta,
            SplashColor::Green,
            SplashColor::Blue,
        ],
{
    let colors = vec![
        SplashColor::Red,
        SplashColor::Yellow,
        SplashColor::Magenta,
        SplashColor::Green,
        SplashColor::Blue,
    ];
    assert(colors@ =~= seq![
        SplashColor::Red,
        SplashColor::Yellow,
        SplashColor::Magenta,
        SplashColor::Green,
        SplashColor::Blue,
    ]);
    colors
}

/// The outline that a picture shows: a cell belongs to the letter where
/// the picture has a `Q`.
pub open spec fn spec_outline_row(picture: Seq<char>) -> Seq<bool> {
    picture.map_values(|ch: char| ch == 'Q')
}

fn outline_row(picture: &str) -> (row: Vec<bool>)
    ensures
        row@ == spec_outline_row(picture@),
{
    let len: usize = picture.unicode_len();
    let mut row: Vec<bool> = Vec::new();
    let mut k: usize = 0;
    while k < len
        invariant
            k <= len,
            len == picture@.len(),
            row@ == spec_outline_row(picture@.take(k as int)),
        decreases len - k,
    {
        let ch = picture.get_char(k);
        row.push(ch == 'Q');
        assert(spec_outline_row(picture@.take(k + 1)) =~= spec_outline_row(
            picture@.take(k as int),
        ).push(ch == 'Q'));
        k += 1;
    }
    assert(picture@.take(k as int) =~= picture@);
    row
}

fn blank_row(cols: usize) -> (row: Vec<char>)
    ensures
        row@ == Seq::new(cols as nat, |c: int| ' '),
{
    let mut row: Vec<char> = Vec::new();
    let mut k: usize = 0;
    while k < cols
        invariant
            k <= cols,
            row@ == Seq::new(k as nat, |c: int| ' '),
        decreases cols - k,
    {
        row.push(' ');
        assert(row@ =~= Seq::new((k + 1) as nat, |c: int| ' '));
        k += 1;
    }
    row
}

/// Puts a character behind a text.
///
/// This is `String::push` of the standard library: the text is as before
/// with the one character behind it.
#[verifier::external_body]
fn push_char(text: &mut String, ch: char)
    ensures
        final(text)@ == old(text)@.push(ch),
{
    text.push(ch);
}

/// The rows of a grid as one text, each row with a line break behind it.
pub open spec fn spec_lines(grid: Seq<Seq<char>>) -> Seq<char>
    decreases grid.len(),
{
    if grid.len() == 0 {
        Seq::empty()
    } else {
        spec_lines(grid.drop_last()) + grid.last().push('\n')
    }
}

impl SplashScreen {
    /// The splash screen before the sweep, with a title and a colour picked
    /// by chance from those there are.
    pub fn new() -> (screen: Self)
        ensures
            screen.spec_is_new(),
            spec_titles().contains(screen.title@),
            colors_spec().contains(screen.title_color),
    {
        let titles = titles();
        let colors = colors();
        let title: &'static str = match crate::chance::pick(&titles) {
            Some(title) => title,
            None => titles[0],
        };
        let title_color: SplashColor = match crate::chance::pick(&colors) {
            Some(color) => color,
            None => colors[0],
        };
        proof {
            let views = titles@.map_values(|title: &'static str| title@);
            let k = choose|k: int| 0 <= k < titles@.len() && titles@[k] == title;
            assert(views[k] == title@);
        }
        Self::with(title, title_color)
    }

    /// Whether the screen is as it is before the sweep: the letter's
    /// outline, and nothing shown of it.
    pub open spec fn spec_is_new(&self) -> bool {
        &&& self.state == State::Start
        &&& self.tick == 0
        &&& self.refresh_rate == 100
        &&& self.direction == Direction::SouthWest
        &&& self.outline@.len() == 24
        &&& self.contents@.len() == 24
        &&& forall|r: int|
            0 <= r < 24 ==> (#[trigger] self.contents@[r])@ == Seq::new(
                spec_cols(spec_grid(self.outline@)) as nat,
                |c: int| ' ',
            )
        &&& forall|r: int|
            0 <= r < 24 ==> (#[trigger] self.outline@[r])@ == spec_outline_row(spec_preset_q()[r])
    }

    /// The splash screen before the sweep, with this title in this colour.
    pub fn with(title: &'static str, title_color: SplashColor) -> (screen: Self)
        ensures
            screen.spec_is_new(),
            screen.title == title,
            screen.title_color == title_color,
    {
        let pictures = preset_q();
        let mut outline: Vec<Vec<bool>> = Vec::new();
        let mut r: usize = 0;
        while r < pictures.len()
            invariant
                r <= pictures.len(),
                pictures@.len() == 24,
                outline@.len() == r,
                pictures@.map_values(|row: &'static str| row@) == spec_preset_q(),
                forall|j: int|
                    0 <= j < r ==> (#[trigger] outline@[j])@ == spec_outline_row(
                        spec_preset_q()[j],
                    ),
            decreases pictures.len() - r,
        {
            assert(pictures@.map_values(|row: &'static str| row@)[r as int] == pictures@[r as int]@);
            outline.push(outline_row(pictures[r]));
            r += 1;
        }
        let cols: usize = outline[0].len();
        let mut contents: Vec<Vec<char>> = Vec::new();
        let mut r: usize = 0;
        while r < outline.len()
            invariant
                r <= outline.len(),
                contents@.len() == r,
                forall|j: int|
                    0 <= j < r ==> (#[trigger] contents@[j])@ == Seq::new(
                        cols as nat,
                        |c: int| ' ',
                    ),
            decreases outline.len() - r,
        {
            contents.push(blank_row(cols));
            r += 1;
        }
        SplashScreen {
            outline,
            contents,
            direction: Direction::SouthWest,
            state: State::Start,
            title,
            title_color,
            tick: 0,
            refresh_rate: 100,
        }
    }

    /// Starts the sweep, if it has not started.
    pub fn sweep(&mut self)
        ensures
            *final(self) == (SplashScreen {
                state: if old(self).state == State::Start {
                    State::Sweep
                } else {
                    old(self).state
                },
                ..*old(self)
            }),
    {
        if self.state != State::Start {
            return ;
        }
        self.state = State::Sweep;
    }

    /// Starts to sweep the letter off, if it waits to be.
    pub fn unsweep(&mut self)
        ensures
            *final(self) == (if old(self).state == State::Wait {
                SplashScreen { state: State::Unsweep, tick: 0, ..*old(self) }
            } else {
                *old(self)
            }),
    {
        if self.state != State::Wait {
            return ;
        }
        self.state = State::Unsweep;
        self.tick = 0;
    }

    /// Any key starts the sweep, and, once the letter stands, the sweep
    /// that takes it off. No key asks anything of the world.
    pub fn handle_key_events(&mut self, code: KeyCode) -> (callback: Option<UiCallbackPreset>)
        ensures
            callback is None,
            *final(self) == (match old(self).state {
                State::Start => SplashScreen { state: State::Sweep, ..*old(self) },
                State::Wait => SplashScreen { state: State::Unsweep, tick: 0, ..*old(self) },
                _ => *old(self),
            }),
    {
        match self.state {
            State::Start => self.sweep(),
            State::Wait => self.unsweep(),
            _ => {},
        }
        None
    }

    /// The state after a tick: a sweep that has gone on for longer than
    /// its threshold is over.
    pub open spec fn spec_state_then(self) -> State {
        if self.state == State::Unsweep && self.tick > spec_threshold(spec_grid(self.outline@)) {
            State::Done
        } else if self.state == State::Sweep && self.tick > spec_threshold(
            spec_grid(self.outline@),
        ) {
            State::Wait
        } else {
            self.state
        }
    }

    /// Whether the sweep goes on in this tick.
    pub open spec fn spec_sweeps(self) -> bool {
        self.spec_state_then() == State::Sweep || self.spec_state_then() == State::Unsweep
    }

    /// What is shown after a tick: while a sweep goes on, every cell is one
    /// step older, and the sweep of the tick has marked its cells.
    pub open spec fn spec_contents_then(self) -> Seq<Seq<char>> {
        if self.spec_sweeps() {
            let outline = spec_grid(self.outline@);
            let tick = if self.tick < u32::MAX {
                self.tick + 1
            } else {
                self.tick as int
            };
            spec_traced(
                outline,
                spec_aged_grid(self.state, spec_grid(self.contents@)),
                self.state,
                spec_start_row(outline.len() as int, tick),
                spec_start_col(outline.len() as int, tick),
                0,
                spec_cols(outline),
            )
        } else {
            spec_grid(self.contents@)
        }
    }

    /// Lets one tick of the animation pass.
    pub fn update(&mut self)
        ensures
            final(self).state == old(self).spec_state_then(),
            final(self).tick == if old(self).spec_sweeps() && old(self).tick < u32::MAX {
                (old(self).tick + 1) as u32
            } else {
                old(self).tick
            },
            spec_grid(final(self).contents@) == old(self).spec_contents_then(),
            final(self).outline == old(self).outline,
            final(self).direction == old(self).direction,
            final(self).title == old(self).title,
            final(self).title_color == old(self).title_color,
            final(self).refresh_rate == old(self).refresh_rate,
    {
        let rows: usize = self.outline.len();
        let cols: usize = if rows > 0 {
            self.outline[0].len()
        } else {
            0
        };
        assert(spec_cols(spec_grid(self.outline@)) == cols);
        let threshold: u128 = rows as u128 + cols as u128 + 20;
        if self.state == State::Unsweep && self.tick as u128 > threshold {
            self.state = State::Done;
        }
        if self.state == State::Sweep && self.tick as u128 > threshold {
            self.state = State::Wait;
        }
        if self.state != State::Sweep && self.state != State::Unsweep {
            return ;
        }
        let state: State = self.state;
        self.tick = self.tick.saturating_add(1);

        let ghost before = spec_grid(self.contents@);
        let mut r: usize = 0;
        while r < self.contents.len()
            invariant
                r <= self.contents.len(),
                self.contents@.len() == before.len(),
                self.outline == old(self).outline,
                self.state == state,
                self.tick == old(self).tick.saturating_add(1),
                self.direction == old(self).direction,
                self.title == old(self).title,
                self.title_color == old(self).title_color,
                self.refresh_rate == old(self).refresh_rate,
                forall|j: int|
                    0 <= j < r ==> (#[trigger] self.contents@[j])@ == spec_aged_grid(
                        state,
                        before,
                    )[j],
                forall|j: int|
                    r <= j < self.contents@.len() ==> (#[trigger] self.contents@[j])@ == before[j],
            decreases self.contents.len() - r,
        {
            let mut c: usize = 0;
            let width: usize = self.contents[r].len();
            while c < width
                invariant
                    c <= width,
                    r < self.contents@.len(),
                    width == before[r as int].len(),
                    self.contents@.len() == before.len(),
                    self.contents@[r as int]@.len() == width,
                    self.outline == old(self).outline,
                    self.state == state,
                    self.tick == old(self).tick.saturating_add(1),
                    self.direction == old(self).direction,
                    self.title == old(self).title,
                    self.title_color == old(self).title_color,
                    self.refresh_rate == old(self).refresh_rate,
                    forall|k: int|
                        0 <= k < c ==> #[trigger] self.contents@[r as int]@[k] == spec_aged(
                            state,
                            before[r as int][k],
                        ),
                    forall|k: int|
                        c <= k < width ==> #[trigger] self.contents@[r as int]@[k]
                            == before[r as int][k],
                    forall|j: int|
                        0 <= j < r ==> (#[trigger] self.contents@[j])@ == spec_aged_grid(
                            state,
                            before,
                        )[j],
                    forall|j: int|
                        r < j < self.contents@.len() ==> (#[trigger] self.contents@[j])@
                            == before[j],
                decreases width - c,
            {
                let ch: char = self.contents[r][c];
                let aged: char = match state {
                    State::Sweep => if ch == '.' {
                        BULB
                    } else if ch == BULB {
                        BLOOM
                    } else if ch == BLOOM || ch == 'Q' {
                        'Q'
                    } else {
                        ' '
                    },
                    State::Unsweep => if ch == 'Q' {
                        'Q'
                    } else if ch == BULB {
                        '.'
                    } else if ch == BLOOM {
                        BULB
                    } else {
                        ' '
                    },
                    _ => ch,
                };
                self.contents[r][c] = aged;
                c += 1;
            }
            assert(self.contents@[r as int]@ =~= spec_aged_grid(state, before)[r as int]);
            r += 1;
        }
        assert(spec_grid(self.contents@) =~= spec_aged_grid(state, before));

        let tick: u128 = self.tick as u128;
        let len: u128 = 2 * (rows as u128);
        let mut col: usize = 0;
        let mut row: usize = 0;
        if tick > len {
            let start: u128 = (tick - len) / 2;
            row = start as usize;
            if row == rows && rows > 0 {
                row -= 1;
            }
        } else if len - tick > usize::MAX as u128 {
            col = usize::MAX;
        } else {
            col = (len - tick) as usize;
        }
        let target: char = if state == State::Unsweep {
            'Q'
        } else {
            ' '
        };
        let mark: char = if state == State::Unsweep {
            BLOOM
        } else {
            '.'
        };
        let ghost aged_grid = spec_grid(self.contents@);
        let ghost row_start = row as int;
        let ghost col_start = col as int;
        let mut i: usize = 0;
        while i < cols
            invariant
                i <= cols,
                rows == self.outline@.len(),
                target == spec_target(state),
                mark == spec_mark(state),
                self.outline == old(self).outline,
                self.state == state,
                self.tick == old(self).tick.saturating_add(1),
                self.direction == old(self).direction,
                self.title == old(self).title,
                self.title_color == old(self).title_color,
                self.refresh_rate == old(self).refresh_rate,
                spec_traced(
                    spec_grid(self.outline@),
                    aged_grid,
                    state,
                    row_start,
                    col_start,
                    0,
                    cols as int,
                ) == spec_traced(
                    spec_grid(self.outline@),
                    spec_grid(self.contents@),
                    state,
                    row as int,
                    col as int,
                    i as int,
                    cols as int,
                ),
            decreases cols - i,
        {
            let ghost grid = spec_grid(self.contents@);
            if row < rows && row < self.contents.len() && col < self.outline[row].len() && col
                < self.contents[row].len() && self.outline[row][col] && self.contents[row][col]
                == target {
                self.contents[row][col] = mark;
                assert(spec_grid(self.contents@) =~= grid.update(
                    row as int,
                    grid[row as int].update(col as int, mark),
                ));
            }
            if col < cols - 1 {
                col += 1;
            }
            if i % 2 == 0 && row < rows && row + 1 < rows {
                row += 1;
            }
            i += 1;
        }
    }

    /// What is shown, as one text: row after row, each with a line break
    /// behind it.
    pub fn to_string(&self) -> (text: String)
        ensures
            text@ == spec_lines(spec_grid(self.contents@)),
    {
        let mut text = String::new();
        let mut r: usize = 0;
        while r < self.contents.len()
            invariant
                r <= self.contents.len(),
                text@ == spec_lines(spec_grid(self.contents@).take(r as int)),
            decreases self.contents.len() - r,
        {
            let ghost head = text@;
            let mut c: usize = 0;
            while c < self.contents[r].len()
                invariant
                    r < self.contents.len(),
                    c <= self.contents@[r as int]@.len(),
                    text@ == head + self.contents@[r as int]@.take(c as int),
                decreases self.contents@[r as int]@.len() - c,
            {
                push_char(&mut text, self.contents[r][c]);
                assert(self.contents@[r as int]@.take(c + 1) =~= self.contents@[r as int]@.take(
                    c as int,
                ).push(self.contents@[r as int]@[c as int]));
                assert(text@ =~= head + self.contents@[r as int]@.take(c + 1));
                c += 1;
            }
            push_char(&mut text, '\n');
            proof {
                let grid = spec_grid(self.contents@);
                assert(self.contents@[r as int]@.take(c as int) =~= self.contents@[r as int]@);
                assert(grid.take(r + 1).drop_last() =~= grid.take(r as int));
                assert(grid.take(r + 1).last() == self.contents@[r as int]@);
                assert(text@ =~= head + grid[r as int].push('\n'));
            }
            r += 1;
        }
        assert(spec_grid(self.contents@).take(r as int) =~= spec_grid(self.contents@));
        text
    }

    /// How often in a second the screen is drawn.
    pub fn get_refresh_rate(&self) -> (rate: u16)
        ensures
            rate == self.refresh_rate,
    {
        self.refresh_rate
    }
}

/// The colours that the title can have, in the order in which they are
/// picked from.
pub open spec fn colors_spec() -> Seq<SplashColor> {
    seq![
        SplashColor::Red,
        SplashColor::Yellow,
        SplashColor::Magenta,
        SplashColor::Green,
        SplashColor::Blue,
    ]
}

} // verus!
