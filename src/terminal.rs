use crate::candlesticks::{Api, DecodeError, Request};
use crate::utils::{pad, pad_spec, repeat_seq, seconds_to_date, seconds_to_date_spec};
use vstd::prelude::*;

verus! {

/// Terminal dimensions in character cells.
#[derive(Debug, Clone, Copy, PartialEq, Eq, Structural)]
pub struct Size {
    pub width: u16,
    pub height: u16,
}

impl Size {
    pub fn from(width: u16, height: u16) -> (r: Self)
        ensures
            r.width == width,
            r.height == height,
    {
        Size { width, height }
    }
}

/// Number of table columns: date, open, close, high, low.
pub const COLUMNS: u16 = 5;

/// Narrowest terminal on which the table can be laid out.
pub const MIN_WIDTH: u16 = 8;

/// Rows taken by everything but the data rows: title, blank line, column
/// header, closing border, two lines of commands and two spare lines.
pub const RESERVED_ROWS: u16 = 8;

/// Width of one table cell for a terminal `width` cells wide.
pub open spec fn column_width_spec(width: int) -> int {
    (width - 3) / (COLUMNS as int) - 1
}

/// Number of data rows that fit a terminal `height` rows high.
pub open spec fn visible_rows_spec(height: int) -> nat {
    if height >= RESERVED_ROWS {
        (height - RESERVED_ROWS) as nat
    } else {
        0
    }
}

/// Width of one table cell: the frame takes three cells, each column one
/// separator.
pub fn column_width(width: u16) -> (r: usize)
    requires
        width >= MIN_WIDTH,
    ensures
        r == column_width_spec(width as int),
{
    ((width - 3) / COLUMNS - 1) as usize
}

/// Number of data rows that fit, never negative.
pub fn visible_rows(height: u16) -> (r: usize)
    ensures
        r == visible_rows_spec(height as int),
{
    if height >= RESERVED_ROWS {
        (height - RESERVED_ROWS) as usize
    } else {
        0
    }
}

/// On every terminal at least the minimum width, a cell is
/// `(width - 3) / 5 - 1` characters wide, and that is never negative.
pub proof fn lemma_column_width(width: int)
    requires
        width >= MIN_WIDTH,
    ensures
        column_width_spec(width) == (width - 3) / 5 - 1,
        column_width_spec(width) >= 0,
{
}

/// A terminal too small to lay the table out on.
#[derive(Debug, Clone, Copy, PartialEq, Eq, Structural)]
pub enum LayoutError {
    TooNarrow,
}

/// Why a fetch brought no response.
#[derive(Debug, Clone, Copy, PartialEq, Eq, Structural)]
pub enum FetchError {
    /// The request did not complete.
    Transport,
    /// The body did not decode.
    Decode(DecodeError),
}

/// Where the refresh cycle stands.
#[derive(Debug, Clone, Copy, PartialEq, Eq, Structural)]
pub enum Phase {
    Idle,
    Fetching,
    Rendered,
    Quitting,
}

/// What a key press asks for.
#[derive(Debug, Clone, Copy, PartialEq, Eq, Structural)]
pub enum KeyCommand {
    Quit,
    Refresh,
    Other,
}

/// What the controller asks its driver to do next.
#[derive(Debug, Clone, Copy, PartialEq, Eq, Structural)]
pub enum Action {
    /// Show the loading screen and start one fetch.
    Fetch,
    /// Draw the dashboard from the last response, then read a key.
    Render,
    /// Read a key.
    ReadKey,
    /// Let the fetch under way finish.
    Wait,
    /// Leave the loop.
    Exit,
}

/// The controller's own state.
#[derive(Debug, Clone, Copy, PartialEq, Eq, Structural)]
pub struct Control {
    pub phase: Phase,
    /// A refresh has been asked for and not yet served.
    pub update: bool,
}

/// The first step of the loop, and of each pass that no event started.
pub open spec fn begin_spec(c: Control) -> (Control, Action) {
    match c.phase {
        Phase::Quitting => (c, Action::Exit),
        Phase::Fetching => (c, Action::Wait),
        _ => if c.update {
            (Control { phase: Phase::Fetching, update: true }, Action::Fetch)
        } else {
            (c, Action::ReadKey)
        },
    }
}

/// The effect of a key press.
pub open spec fn key_spec(c: Control, k: KeyCommand) -> (Control, Action) {
    match k {
        KeyCommand::Quit => (Control { phase: Phase::Quitting, update: c.update }, Action::Exit),
        KeyCommand::Refresh => match c.phase {
            Phase::Quitting => (c, Action::Exit),
            Phase::Fetching => (c, Action::Wait),
            _ => (Control { phase: Phase::Fetching, update: true }, Action::Fetch),
        },
        KeyCommand::Other => match c.phase {
            Phase::Quitting => (c, Action::Exit),
            Phase::Fetching => (c, Action::Wait),
            _ => (c, Action::ReadKey),
        },
    }
}

/// The effect of a finished fetch; one that arrives while no fetch is under
/// way changes nothing.
pub open spec fn fetch_spec(c: Control, ok: bool) -> (Control, Action) {
    match c.phase {
        Phase::Fetching => if ok {
            (Control { phase: Phase::Rendered, update: false }, Action::Render)
        } else {
            (Control { phase: Phase::Idle, update: false }, Action::ReadKey)
        },
        Phase::Quitting => (c, Action::Exit),
        _ => (c, Action::ReadKey),
    }
}

/// The quit key leads to `Quitting` from every state, and the refresh key
/// leads from `Rendered` back to `Fetching`.
pub proof fn lemma_quit_and_refresh_keys(c: Control)
    ensures
        key_spec(c, KeyCommand::Quit).0.phase == Phase::Quitting,
        key_spec(c, KeyCommand::Quit).1 == Action::Exit,
        c.phase == Phase::Rendered ==> key_spec(c, KeyCommand::Refresh).0.phase == Phase::Fetching
            && key_spec(c, KeyCommand::Refresh).1 == Action::Fetch,
{
}

/// A fetch is only ever started from a state with none under way, and
/// `Quitting` is never left.
pub proof fn lemma_one_fetch_at_a_time(c: Control, k: KeyCommand, ok: bool)
    ensures
        begin_spec(c).1 == Action::Fetch ==> c.phase != Phase::Fetching && begin_spec(c).0.phase
            == Phase::Fetching,
        key_spec(c, k).1 == Action::Fetch ==> c.phase != Phase::Fetching && key_spec(c, k).0.phase
            == Phase::Fetching,
        fetch_spec(c, ok).1 != Action::Fetch,
        c.phase == Phase::Quitting ==> begin_spec(c).0.phase == Phase::Quitting && key_spec(
            c,
            k,
        ).0.phase == Phase::Quitting && fetch_spec(c, ok).0.phase == Phase::Quitting,
{
}

/// One candlestick ready to draw: its time, and its prices already written
/// as text.
pub struct Row {
    pub timestamp: u32,
    pub open: String,
    pub close: String,
    pub high: String,
    pub low: String,
}

/// A table line: a space, the left corner, the five cells with `sep`
/// between them, and the right corner.
pub open spec fn frame_spec(
    left: Seq<char>,
    sep: Seq<char>,
    right: Seq<char>,
    cells: Seq<Seq<char>>,
) -> Seq<char> {
    seq![' '] + left + cells[0] + sep + cells[1] + sep + cells[2] + sep + cells[3] + sep + cells[4]
        + right
}

fn frame(left: &str, sep: &str, right: &str, cells: &Vec<String>) -> (r: String)
    requires
        cells@.len() == 5,
    ensures
        r@ == frame_spec(left@, sep@, right@, cells@.map_values(|c: String| c@)),
{
    let mut r = String::from_str(" ");
    r.append(left);
    r.append(cells[0].as_str());
    r.append(sep);
    r.append(cells[1].as_str());
    r.append(sep);
    r.append(cells[2].as_str());
    r.append(sep);
    r.append(cells[3].as_str());
    r.append(sep);
    r.append(cells[4].as_str());
    r.append(right);
    proof {
        reveal_strlit(" ");
    }
    assert(r@ =~= frame_spec(left@, sep@, right@, cells@.map_values(|c: String| c@)));
    r
}

/// The five cells of a data row, each padded with spaces to `space`.
pub open spec fn row_cells_spec(row: Row, space: nat) -> Seq<Seq<char>> {
    seq![
        pad_spec(seconds_to_date_spec(row.timestamp as int), space, " "@),
        pad_spec(row.open@, space, " "@),
        pad_spec(row.close@, space, " "@),
        pad_spec(row.high@, space, " "@),
        pad_spec(row.low@, space, " "@),
    ]
}

/// The five cells of the column header, each padded with rules to `space`.
pub open spec fn header_cells_spec(space: nat) -> Seq<Seq<char>> {
    seq![
        pad_spec(" Date "@, space, "─"@),
        pad_spec(" Open "@, space, "─"@),
        pad_spec(" Close "@, space, "─"@),
        pad_spec(" High "@, space, "─"@),
        pad_spec(" Low "@, space, "─"@),
    ]
}

/// The five cells of the closing border.
pub open spec fn border_cells_spec(space: nat) -> Seq<Seq<char>> {
    seq![
        repeat_seq("─"@, space),
        repeat_seq("─"@, space),
        repeat_seq("─"@, space),
        repeat_seq("─"@, space),
        repeat_seq("─"@, space),
    ]
}

/// `message` preceded by enough spaces to center it in `width` cells; a
/// message wider than that starts at the left edge.
pub open spec fn centered_spec(message: Seq<char>, width: int) -> Seq<char> {
    let gap: nat = if width >= message.len() {
        ((width - message.len()) / 2) as nat
    } else {
        0
    };
    repeat_seq(" "@, gap) + message
}

/// The title of the dashboard, `"{symbol} -- {interval}"`.
pub open spec fn title_spec(symbol: Seq<char>, interval: Seq<char>) -> Seq<char> {
    symbol + " -- "@ + interval
}

/// The text shown while a fetch is under way.
pub open spec fn loading_message() -> Seq<char> {
    "Fetching data..."@
}

/// The two lines that list the key bindings.
pub open spec fn commands_spec() -> Seq<Seq<char>> {
    seq!["  Commands: "@, "  \tQuit: Ctr+Q \t Update data: Ctr+U "@]
}

fn centered(message: &str, width: u16) -> (r: String)
    ensures
        r@ == centered_spec(message@, width as int),
{
    let len = message.unicode_len();
    let gap: usize = if width as usize >= len {
        (width as usize - len) / 2
    } else {
        0
    };
    let mut r = pad("", gap, " ");
    proof {
        reveal_strlit("");
        assert(Seq::<char>::empty() + repeat_seq(" "@, gap as nat) =~= repeat_seq(" "@, gap as nat));
    }
    r.append(message);
    r
}

/// The dashboard: terminal size, what to fetch, the refresh controller and
/// the last response received.
pub struct Terminal {
    pub size: Size,
    pub info: Api,
    pub control: Control,
    pub last: Option<Request>,
}

impl Terminal {
    /// The table can be laid out on the terminal.
    pub open spec fn wf(&self) -> bool {
        self.size.width >= MIN_WIDTH
    }

    /// Width of one table cell on this terminal.
    pub open spec fn space(&self) -> nat {
        column_width_spec(self.size.width as int) as nat
    }

    /// A dashboard that fetches as soon as it is started; a terminal narrower
    /// than the table's minimum is refused.
    pub fn new(size: Size, info: Api) -> (r: Result<Terminal, LayoutError>)
        ensures
            size.width < MIN_WIDTH <==> r is Err,
            r matches Ok(t) ==> t.wf() && t.size == size && t.info == info && t.control == (Control {
                phase: Phase::Idle,
                update: true,
            }) && t.last is None,
    {
        if size.width < MIN_WIDTH {
            Err(LayoutError::TooNarrow)
        } else {
            Ok(
                Terminal {
                    size,
                    info,
                    control: Control { phase: Phase::Idle, update: true },
                    last: None,
                },
            )
        }
    }

    /// Takes the terminal's new size for the next drawing; a size below the
    /// minimum width is refused and the old one kept.
    pub fn resize(&mut self, size: Size) -> (r: Result<(), LayoutError>)
        requires
            old(self).wf(),
        ensures
            size.width < MIN_WIDTH <==> r is Err,
            final(self).size == (if r is Ok { size } else { old(self).size }),
            final(self).wf(),
            final(self).info == old(self).info,
            final(self).control == old(self).control,
            final(self).last == old(self).last,
    {
        if size.width < MIN_WIDTH {
            Err(LayoutError::TooNarrow)
        } else {
            self.size = size;
            Ok(())
        }
    }

    /// Decides the first thing to do on entering the loop.
    pub fn begin(&mut self) -> (r: Action)
        ensures
            (final(self).control, r) == begin_spec(old(self).control),
            final(self).size == old(self).size,
            final(self).info == old(self).info,
            final(self).last == old(self).last,
    {
        match self.control.phase {
            Phase::Quitting => Action::Exit,
            Phase::Fetching => Action::Wait,
            _ => if self.control.update {
                self.control = Control { phase: Phase::Fetching, update: true };
                Action::Fetch
            } else {
                Action::ReadKey
            },
        }
    }

    /// Reacts to a key: quit, refresh, or nothing.
    pub fn handle_keypress(&mut self, key: KeyCommand) -> (r: Action)
        ensures
            (final(self).control, r) == key_spec(old(self).control, key),
            final(self).size == old(self).size,
            final(self).info == old(self).info,
            final(self).last == old(self).last,
    {
        match key {
            KeyCommand::Quit => {
                self.control = Control { phase: Phase::Quitting, update: self.control.update };
                Action::Exit
            },
            _ => match self.control.phase {
                Phase::Quitting => Action::Exit,
                Phase::Fetching => Action::Wait,
                _ => match key {
                    KeyCommand::Refresh => {
                        self.control = Control { phase: Phase::Fetching, update: true };
                        Action::Fetch
                    },
                    _ => Action::ReadKey,
                },
            },
        }
    }

    /// Takes the outcome of the fetch under way. A response replaces the
    /// previous one; a failure keeps it.
    pub fn fetch_done(&mut self, result: Result<Request, FetchError>) -> (r: Action)
        ensures
            (final(self).control, r) == fetch_spec(old(self).control, result is Ok),
            final(self).size == old(self).size,
            final(self).info == old(self).info,
            final(self).last == (if old(self).control.phase == Phase::Fetching && result is Ok {
                Some(result->Ok_0)
            } else {
                old(self).last
            }),
    {
        match self.control.phase {
            Phase::Fetching => match result {
                Ok(req) => {
                    self.control = Control { phase: Phase::Rendered, update: false };
                    self.last = Some(req);
                    Action::Render
                },
                Err(_) => {
                    self.control = Control { phase: Phase::Idle, update: false };
                    Action::ReadKey
                },
            },
            Phase::Quitting => Action::Exit,
            _ => Action::ReadKey,
        }
    }

    /// The data row of one candlestick: five padded cells between bars.
    pub fn candlestick_line(&self, row: &Row) -> (r: String)
        requires
            self.wf(),
        ensures
            r@ == frame_spec("│"@, "│"@, "│"@, row_cells_spec(*row, self.space())),
    {
        let space = column_width(self.size.width);
        let date = seconds_to_date(row.timestamp);
        let mut cells: Vec<String> = Vec::new();
        cells.push(pad(date.as_str(), space, " "));
        cells.push(pad(row.open.as_str(), space, " "));
        cells.push(pad(row.close.as_str(), space, " "));
        cells.push(pad(row.high.as_str(), space, " "));
        cells.push(pad(row.low.as_str(), space, " "));
        let r = frame("│", "│", "│", &cells);
        assert(cells@.map_values(|c: String| c@) =~= row_cells_spec(*row, self.space()));
        r
    }

    /// The title, a blank line and the column header.
    pub fn display_first_lines(&self) -> (r: Vec<String>)
        requires
            self.wf(),
        ensures
            r@.len() == 3,
            r@[0]@ == centered_spec(
                title_spec(self.info.symbol@, self.info.interval@),
                self.size.width as int,
            ),
            r@[1]@ == Seq::<char>::empty(),
            r@[2]@ == frame_spec("┌"@, "┬"@, "┐"@, header_cells_spec(self.space())),
    {
        let mut message = self.info.symbol.clone();
        message.append(" -- ");
        message.append(self.info.interval.as_str());
        let space = column_width(self.size.width);
        let mut cells: Vec<String> = Vec::new();
        cells.push(pad(" Date ", space, "─"));
        cells.push(pad(" Open ", space, "─"));
        cells.push(pad(" Close ", space, "─"));
        cells.push(pad(" High ", space, "─"));
        cells.push(pad(" Low ", space, "─"));
        let header = frame("┌", "┬", "┐", &cells);
        assert(cells@.map_values(|c: String| c@) =~= header_cells_spec(self.space()));
        let mut r: Vec<String> = Vec::new();
        r.push(centered(message.as_str(), self.size.width));
        r.push(String::new());
        r.push(header);
        r
    }

    /// The closing border of the table.
    pub fn last_line(&self) -> (r: String)
        requires
            self.wf(),
        ensures
            r@ == frame_spec("└"@, "┴"@, "┘"@, border_cells_spec(self.space())),
    {
        let space = column_width(self.size.width);
        let mut cells: Vec<String> = Vec::new();
        cells.push(pad("", space, "─"));
        cells.push(pad("", space, "─"));
        cells.push(pad("", space, "─"));
        cells.push(pad("", space, "─"));
        cells.push(pad("", space, "─"));
        proof {
            reveal_strlit("");
            assert(Seq::<char>::empty() + repeat_seq("─"@, space as nat) =~= repeat_seq(
                "─"@,
                space as nat,
            ));
            assert(pad_spec(""@, space as nat, "─"@) == repeat_seq("─"@, space as nat));
        }
        let r = frame("└", "┴", "┘", &cells);
        assert(cells@.map_values(|c: String| c@) =~= border_cells_spec(self.space()));
        r
    }

    /// The lines that list the key bindings.
    pub fn display_commands(&self) -> (r: Vec<String>)
        ensures
            r@.len() == 2,
            r@.map_values(|l: String| l@) == commands_spec(),
    {
        let mut r: Vec<String> = Vec::new();
        r.push(String::from_str("  Commands: "));
        r.push(String::from_str("  \tQuit: Ctr+Q \t Update data: Ctr+U "));
        assert(r@.map_values(|l: String| l@) =~= commands_spec());
        r
    }

    /// The data rows: one per candlestick, in the order given, as many as
    /// the terminal holds; when there are fewer candlesticks the remaining
    /// rows are blank, so the table always has the same height.
    pub fn display_api_data(&self, rows: &Vec<Row>) -> (r: Vec<String>)
        requires
            self.wf(),
        ensures
            r@.len() == visible_rows_spec(self.size.height as int),
            forall|i: int|
                0 <= i < r@.len() ==> #[trigger] r@[i]@ == (if i < rows@.len() {
                    frame_spec("│"@, "│"@, "│"@, row_cells_spec(rows@[i], self.space()))
                } else {
                    Seq::<char>::empty()
                }),
    {
        let n = visible_rows(self.size.height);
        let mut r: Vec<String> = Vec::new();
        let mut i: usize = 0;
        while i < n
            invariant
                self.wf(),
                i <= n,
                n == visible_rows_spec(self.size.height as int),
                r@.len() == i,
                forall|j: int|
                    0 <= j < i ==> #[trigger] r@[j]@ == (if j < rows@.len() {
                        frame_spec("│"@, "│"@, "│"@, row_cells_spec(rows@[j], self.space()))
                    } else {
                        Seq::<char>::empty()
                    }),
            decreases n - i,
        {
            if i < rows.len() {
                let line = self.candlestick_line(&rows[i]);
                r.push(line);
            } else {
                r.push(String::new());
            }
            i = i + 1;
        }
        r
    }

    /// The screen shown while a fetch is under way: as many lines as the
    /// terminal is high, blank but for the message, centered both ways.
    pub fn fetching_data_screen(&self) -> (r: Vec<String>)
        ensures
            r@.len() == self.size.height,
            forall|i: int|
                0 <= i < r@.len() ==> #[trigger] r@[i]@ == (if i == self.size.height / 2 {
                    centered_spec(loading_message(), self.size.width as int)
                } else {
                    Seq::<char>::empty()
                }),
    {
        let mut r: Vec<String> = Vec::new();
        let mut i: u16 = 0;
        while i < self.size.height
            invariant
                i <= self.size.height,
                r@.len() == i,
                forall|j: int|
                    0 <= j < i ==> #[trigger] r@[j]@ == (if j == self.size.height / 2 {
                        centered_spec(loading_message(), self.size.width as int)
                    } else {
                        Seq::<char>::empty()
                    }),
            decreases self.size.height - i,
        {
            if i == self.size.height / 2 {
                r.push(centered("Fetching data...", self.size.width));
            } else {
                r.push(String::new());
            }
            i = i + 1;
        }
        r
    }

    /// The whole dashboard for a set of rows: title block, data rows,
    /// closing border and key bindings.
    pub fn display_dashboard(&self, rows: &Vec<Row>) -> (r: Vec<String>)
        requires
            self.wf(),
        ensures
            r@.len() == 6 + visible_rows_spec(self.size.height as int),
            r@[0]@ == centered_spec(
                title_spec(self.info.symbol@, self.info.interval@),
                self.size.width as int,
            ),
            r@[1]@ == Seq::<char>::empty(),
            r@[2]@ == frame_spec("┌"@, "┬"@, "┐"@, header_cells_spec(self.space())),
            forall|i: int|
                0 <= i < visible_rows_spec(self.size.height as int) ==> #[trigger] r@[3 + i]@ == (
                if i < rows@.len() {
                    frame_spec("│"@, "│"@, "│"@, row_cells_spec(rows@[i], self.space()))
                } else {
                    Seq::<char>::empty()
                }),
            r@[r@.len() - 3]@ == frame_spec("└"@, "┴"@, "┘"@, border_cells_spec(self.space())),
            r@[r@.len() - 2]@ == commands_spec()[0],
            r@[r@.len() - 1]@ == commands_spec()[1],
    {
        let mut r = self.display_first_lines();
        let mut data = self.display_api_data(rows);
        let mut commands = self.display_commands();
        let ghost first = r@;
        let ghost body = data@;
        let ghost tail = commands@;
        r.append(&mut data);
        r.push(self.last_line());
        r.append(&mut commands);
        assert(tail.map_values(|l: String| l@)[0] == tail[0]@);
        assert(tail.map_values(|l: String| l@)[1] == tail[1]@);
        assert(forall|i: int| 0 <= i < body.len() ==> r@[3 + i] == #[trigger] body[i]);
        r
    }
}

} // verus!
