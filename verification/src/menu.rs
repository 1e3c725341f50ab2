//! Interactive single-select menu: navigation state machine, render
//! model and key dispatch.
//!
//! The menu owns one piece of mutable state, the cursor index, and
//! steers it around the optional "current" marker: when a marker is
//! present and there is more than one option, the cursor never rests on
//! the marked row.  The blocking terminal loop lives outside the
//! library; it feeds one [`MenuKey`] at a time into [`Menu::handle_key`]
//! and redraws one frame per [`MenuStep::Continue`] it gets back.

use vstd::prelude::*;

verus! {

/// A raw key event, as far as the menu cares: the four recognized keys
/// and `Other` for everything else.
#[derive(Clone, Copy, PartialEq, Eq, Structural, Debug)]
pub enum MenuKey {
    Up,
    Down,
    Enter,
    Esc,
    CtrlC,
    Other,
}

/// A navigation command, the menu's whole input vocabulary.
#[derive(Clone, Copy, PartialEq, Eq, Structural, Debug)]
pub enum MenuCommand {
    MoveUp,
    MoveDown,
    Confirm,
    Cancel,
    Noop,
}

/// How a session ends: a chosen option index, or cancellation.
#[derive(Clone, Copy, PartialEq, Eq, Structural, Debug)]
pub enum MenuOutcome {
    Chosen(usize),
    Canceled,
}

/// What one processed key asks of the driving loop: redraw the frame
/// and keep going, or end the session with an outcome.
#[derive(Clone, Copy, PartialEq, Eq, Structural, Debug)]
pub enum MenuStep {
    Continue,
    Finish(MenuOutcome),
}

/// The style of one rendered option row.
#[derive(Clone, Copy, PartialEq, Eq, Structural, Debug)]
pub enum LineStyle {
    /// The row under the cursor: pointer glyph, emphasized.
    Selected,
    /// The row of the current marker when the cursor is elsewhere:
    /// de-emphasized, with a "(current)" suffix.
    Current,
    /// Any other row: plain text.
    Normal,
}

/// One display line of a frame: the option's text and its style.
pub struct MenuLine {
    pub text: String,
    pub style: LineStyle,
}

/// Which command a key maps to.
pub open spec fn spec_key_command(key: MenuKey) -> MenuCommand {
    match key {
        MenuKey::Up => MenuCommand::MoveUp,
        MenuKey::Down => MenuCommand::MoveDown,
        MenuKey::Enter => MenuCommand::Confirm,
        MenuKey::Esc => MenuCommand::Cancel,
        MenuKey::CtrlC => MenuCommand::Cancel,
        MenuKey::Other => MenuCommand::Noop,
    }
}

/// Maps a key event to its navigation command; every unrecognized key
/// becomes `Noop`, which still costs one redraw pass.
pub fn key_command(key: &MenuKey) -> (c: MenuCommand)
    ensures
        c == spec_key_command(*key),
{
    match key {
        MenuKey::Up => MenuCommand::MoveUp,
        MenuKey::Down => MenuCommand::MoveDown,
        MenuKey::Enter => MenuCommand::Confirm,
        MenuKey::Esc => MenuCommand::Cancel,
        MenuKey::CtrlC => MenuCommand::Cancel,
        MenuKey::Other => MenuCommand::Noop,
    }
}

/// Where the cursor starts: on row 1 when the current marker sits on
/// row 0 and there is somewhere else to go, else on row 0.
pub open spec fn spec_initial_cursor(n: int, current: Option<usize>) -> int {
    if (current matches Some(c) && c == 0) && n > 1 {
        1
    } else {
        0
    }
}

/// The cursor after one move, with the skip-current policy.
///
/// A move off either end is ignored.  When the neighbouring row is the
/// current marker, the cursor skips over it to the row beyond — unless
/// the marker sits on the edge, in which case the move is rejected and
/// the cursor stays put.  That edge asymmetry is deliberate policy and
/// pinned here.
pub open spec fn spec_next_cursor(up: bool, cursor: int, current: Option<usize>, n: int) -> int {
    let cand = if up {
        cursor - 1
    } else {
        cursor + 1
    };
    if up && cursor == 0 {
        cursor
    } else if !up && cursor >= n - 1 {
        cursor
    } else {
        match current {
            Some(c) => {
                if c as int == cand {
                    if up {
                        if cand == 0 {
                            cursor
                        } else {
                            cursor - 2
                        }
                    } else {
                        if cand == n - 1 {
                            cursor
                        } else {
                            cursor + 2
                        }
                    }
                } else {
                    cand
                }
            },
            None => cand,
        }
    }
}

/// The named transition function of the navigation policy: one step up
/// or down from `cursor` over `n` rows, skipping the current marker.
pub fn next_index_skipping_current(up: bool, cursor: usize, current: Option<usize>, n: usize) -> (r:
    usize)
    requires
        1 <= n,
        cursor < n,
        current matches Some(c) ==> c < n,
    ensures
        r == spec_next_cursor(up, cursor as int, current, n as int),
        r < n,
{
    if up && cursor == 0 {
        cursor
    } else if !up && cursor >= n - 1 {
        cursor
    } else {
        let cand = if up {
            cursor - 1
        } else {
            cursor + 1
        };
        match current {
            Some(c) => {
                if c == cand {
                    if up {
                        if cand == 0 {
                            cursor
                        } else {
                            cursor - 2
                        }
                    } else {
                        if cand == n - 1 {
                            cursor
                        } else {
                            cursor + 2
                        }
                    }
                } else {
                    cand
                }
            },
            None => cand,
        }
    }
}

/// The navigation state machine: the option count and current marker,
/// fixed for the session, and the one mutable cursor index.
#[derive(Clone, Copy, PartialEq, Eq, Structural, Debug)]
pub struct Menu {
    /// Number of options; at least 1.
    pub n: usize,
    /// Index of the option that is already active, if any.
    pub current: Option<usize>,
    /// The highlighted row, always in `[0, n-1]`.
    pub cursor: usize,
}

impl Menu {
    /// The session invariant: indices are in range, and when a current
    /// marker is present and there is more than one row, the cursor is
    /// not on it.
    pub open spec fn wf(self) -> bool {
        &&& 1 <= self.n
        &&& self.cursor < self.n
        &&& self.current matches Some(c) ==> c < self.n
        &&& match self.current {
            Some(c) => self.n > 1 ==> self.cursor != c,
            None => true,
        }
    }

    /// Opens a session over `n` options with an optional current
    /// marker; the cursor starts where the initial-frame rule says.
    pub fn new(n: usize, current: Option<usize>) -> (m: Menu)
        requires
            1 <= n,
            current matches Some(c) ==> c < n,
        ensures
            m.wf(),
            m.n == n,
            m.current == current,
            m.cursor == spec_initial_cursor(n as int, current),
    {
        let cursor: usize = match current {
            Some(0) if n > 1 => 1,
            _ => 0,
        };
        Menu { n, current, cursor }
    }

    /// The state after one command: moves update the cursor through the
    /// skip-current policy, everything else leaves the state unchanged.
    pub open spec fn spec_apply(self, cmd: MenuCommand) -> Menu {
        match cmd {
            MenuCommand::MoveUp => Menu {
                cursor: spec_next_cursor(true, self.cursor as int, self.current, self.n as int)
                    as usize,
                ..self
            },
            MenuCommand::MoveDown => Menu {
                cursor: spec_next_cursor(false, self.cursor as int, self.current, self.n as int)
                    as usize,
                ..self
            },
            _ => self,
        }
    }

    /// Applies one navigation command.
    ///
    /// Every processed command yields exactly one [`MenuStep`]:
    /// `Confirm` finishes with `Chosen` of the cursor as it stands at
    /// that moment, `Cancel` finishes with `Canceled` whatever the
    /// cursor holds, and every other command — moves and no-ops alike —
    /// asks for exactly one redraw.
    pub fn step(&mut self, cmd: MenuCommand) -> (r: MenuStep)
        requires
            old(self).wf(),
        ensures
            final(self).wf(),
            *final(self) == old(self).spec_apply(cmd),
            r == (match cmd {
                MenuCommand::Confirm => MenuStep::Finish(MenuOutcome::Chosen(old(self).cursor)),
                MenuCommand::Cancel => MenuStep::Finish(MenuOutcome::Canceled),
                _ => MenuStep::Continue,
            }),
    {
        match cmd {
            MenuCommand::MoveUp => {
                self.cursor = next_index_skipping_current(true, self.cursor, self.current, self.n);
                proof {
                    lemma_next_cursor_keeps_invariant(
                        true,
                        old(self).cursor as int,
                        self.current,
                        self.n as int,
                    );
                }
                MenuStep::Continue
            },
            MenuCommand::MoveDown => {
                self.cursor = next_index_skipping_current(false, self.cursor, self.current, self.n);
                proof {
                    lemma_next_cursor_keeps_invariant(
                        false,
                        old(self).cursor as int,
                        self.current,
                        self.n as int,
                    );
                }
                MenuStep::Continue
            },
            MenuCommand::Confirm => MenuStep::Finish(MenuOutcome::Chosen(self.cursor)),
            MenuCommand::Cancel => MenuStep::Finish(MenuOutcome::Canceled),
            MenuCommand::Noop => MenuStep::Continue,
        }
    }

    /// Processes one raw key event: maps it to its command and applies
    /// it.  This is the one call the terminal loop makes per key.
    pub fn handle_key(&mut self, key: &MenuKey) -> (r: MenuStep)
        requires
            old(self).wf(),
        ensures
            final(self).wf(),
            *final(self) == old(self).spec_apply(spec_key_command(*key)),
            r == (match spec_key_command(*key) {
                MenuCommand::Confirm => MenuStep::Finish(MenuOutcome::Chosen(old(self).cursor)),
                MenuCommand::Cancel => MenuStep::Finish(MenuOutcome::Canceled),
                _ => MenuStep::Continue,
            }),
    {
        let cmd = key_command(key);
        self.step(cmd)
    }

    /// Renders one full frame for this state: always exactly `n` lines.
    pub fn frame(&self, options: &Vec<String>) -> (r: Vec<MenuLine>)
        requires
            self.wf(),
            options@.len() == self.n,
        ensures
            r@.len() == self.n,
            forall|i: int|
                0 <= i < r@.len() ==> r@[i].text@ == options@[i]@ && r@[i].style
                    == spec_line_style(i, self.cursor as int, self.current),
    {
        render_lines(options, self.cursor, self.current)
    }
}

/// The style a row gets: `Selected` on the cursor's row (which wins in
/// the degenerate one-row case), `Current` on the marker's row when the
/// cursor is elsewhere, `Normal` otherwise.
pub open spec fn spec_line_style(i: int, cursor: int, current: Option<usize>) -> LineStyle {
    if i == cursor {
        LineStyle::Selected
    } else if current matches Some(c) && c as int == i {
        LineStyle::Current
    } else {
        LineStyle::Normal
    }
}

/// The style of row `i` under cursor and current marker.
pub fn line_style(i: usize, cursor: usize, current: Option<usize>) -> (r: LineStyle)
    ensures
        r == spec_line_style(i as int, cursor as int, current),
{
    if i == cursor {
        LineStyle::Selected
    } else {
        match current {
            Some(c) if c == i => LineStyle::Current,
            _ => LineStyle::Normal,
        }
    }
}

/// Pure render engine: one line per option, each tagged with exactly
/// one style.  Writing the lines to the terminal is the caller's side
/// effect.
pub fn render_lines(options: &Vec<String>, cursor: usize, current: Option<usize>) -> (r: Vec<
    MenuLine,
>)
    ensures
        r@.len() == options@.len(),
        forall|i: int|
            0 <= i < r@.len() ==> r@[i].text@ == options@[i]@ && r@[i].style
                == spec_line_style(i, cursor as int, current),
{
    let mut lines: Vec<MenuLine> = Vec::new();
    let mut i: usize = 0;
    while i < options.len()
        invariant
            i <= options@.len(),
            lines@.len() == i,
            forall|j: int|
                0 <= j < i ==> lines@[j].text@ == options@[j]@ && lines@[j].style
                    == spec_line_style(j, cursor as int, current),
        decreases options@.len() - i,
    {
        let style = line_style(i, cursor, current);
        lines.push(MenuLine { text: options[i].clone(), style });
        i = i + 1;
    }
    lines
}

/// Index of the first option equal to `current`, the way the session
/// locates the caller's pre-existing selection.
pub fn find_current(options: &Vec<String>, current: &String) -> (r: Option<usize>)
    ensures
        r matches Some(i) ==> i < options@.len() && options@[i as int]@ == current@ && forall|j: int|
            0 <= j < i ==> options@[j]@ != current@,
        r is None ==> forall|j: int| 0 <= j < options@.len() ==> options@[j]@ != current@,
{
    let mut i: usize = 0;
    while i < options.len()
        invariant
            i <= options@.len(),
            forall|j: int| 0 <= j < i ==> options@[j]@ != current@,
        decreases options@.len() - i,
    {
        if options[i].eq(current) {
            return Some(i);
        }
        i = i + 1;
    }
    None
}

/// One move keeps the cursor in range and off the current marker.
proof fn lemma_next_cursor_keeps_invariant(up: bool, cursor: int, current: Option<usize>, n: int)
    requires
        1 <= n,
        0 <= cursor < n,
        current matches Some(c) ==> c < n,
        match current {
            Some(c) => n > 1 ==> cursor != c,
            None => true,
        },
    ensures
        0 <= spec_next_cursor(up, cursor, current, n) < n,
        match current {
            Some(c) => n > 1 ==> spec_next_cursor(up, cursor, current, n) != c,
            None => true,
        },
{
}

/// The state after a whole command sequence has been applied.
pub open spec fn spec_run(m: Menu, cmds: Seq<MenuCommand>) -> Menu
    decreases cmds.len(),
{
    if cmds.len() == 0 {
        m
    } else {
        spec_run(m.spec_apply(cmds[0]), cmds.drop_first())
    }
}

/// A command sequence changes nothing but the cursor, and keeps the
/// session invariant.
pub proof fn lemma_run_preserves_invariant(m: Menu, cmds: Seq<MenuCommand>)
    requires
        m.wf(),
    ensures
        spec_run(m, cmds).wf(),
        spec_run(m, cmds).n == m.n,
        spec_run(m, cmds).current == m.current,
    decreases cmds.len(),
{
    if cmds.len() > 0 {
        let next = m.spec_apply(cmds[0]);
        match cmds[0] {
            MenuCommand::MoveUp => lemma_next_cursor_keeps_invariant(
                true,
                m.cursor as int,
                m.current,
                m.n as int,
            ),
            MenuCommand::MoveDown => lemma_next_cursor_keeps_invariant(
                false,
                m.cursor as int,
                m.current,
                m.n as int,
            ),
            _ => (),
        }
        lemma_run_preserves_invariant(next, cmds.drop_first());
    }
}

/// For any option count and any sequence of commands, the cursor stays
/// within `[0, n-1]` at all times.
pub proof fn lemma_cursor_stays_in_bounds(m: Menu, cmds: Seq<MenuCommand>)
    requires
        m.wf(),
    ensures
        0 <= spec_run(m, cmds).cursor < m.n,
{
    lemma_run_preserves_invariant(m, cmds);
}

/// When a current marker is set and there is more than one option, the
/// cursor never equals the marker's index, from the initial frame on
/// through any sequence of commands.
pub proof fn lemma_cursor_avoids_current(m: Menu, cmds: Seq<MenuCommand>, c: usize)
    requires
        m.wf(),
        m.current == Some(c),
        m.n > 1,
    ensures
        spec_run(m, cmds).cursor != c,
{
    lemma_run_preserves_invariant(m, cmds);
}

} // verus!
