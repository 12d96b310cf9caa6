//! The selection engine: owns the command list and the cursor over it, and
//! turns navigation commands into clamped index moves.

use vstd::prelude::*;

verus! {

/// The scrollable selection over an immutable, non-empty command list.
///
/// The list is ordered oldest first; the cursor starts on the newest entry
/// and every move is clamped to `[0, len - 1]`.
pub struct App {
    commands: Vec<String>,
    selected_idx: usize,
    num_commands: usize,
}

/// The index the cursor moves to on a one-step move toward newer entries.
pub open spec fn down_index(sel: int, len: int) -> int {
    if sel + 1 < len {
        sel + 1
    } else {
        sel
    }
}

/// The index the cursor moves to on a one-step move toward older entries.
pub open spec fn up_index(sel: int) -> int {
    if sel > 0 {
        sel - 1
    } else {
        0
    }
}

/// How far a page move shifts the cursor: one less than a full page, so one
/// line of context stays on screen. A viewport under two lines gives no
/// shift at all rather than an underflowing one.
pub open spec fn page_jump(height: int) -> int {
    if height >= 2 {
        height - 2
    } else {
        0
    }
}

/// The index a page move toward newer entries lands on.
pub open spec fn page_down_index(sel: int, len: int, height: int) -> int {
    if sel + page_jump(height) <= len - 1 {
        sel + page_jump(height)
    } else {
        len - 1
    }
}

/// The index a page move toward older entries lands on.
pub open spec fn page_up_index(sel: int, height: int) -> int {
    if sel - page_jump(height) >= 0 {
        sel - page_jump(height)
    } else {
        0
    }
}

/// One rendered line of the visible window.
pub struct Row {
    /// 1-based age: 1 marks the newest command, `len` the oldest.
    pub age: usize,
    /// The command text.
    pub text: String,
    /// Whether this row carries the cursor.
    pub highlighted: bool,
}

/// The first list index the visible window shows: the window is anchored so
/// that the cursor sits on its last line once enough entries precede it, and
/// never starts below zero.
pub open spec fn window_start(sel: int, height: int) -> int {
    if sel > height - 1 {
        sel - (height - 1)
    } else {
        0
    }
}

/// How many rows the visible window shows: a full viewport, or the whole
/// list where it is shorter.
pub open spec fn window_len(len: int, height: int) -> int {
    if height <= len {
        height
    } else {
        len
    }
}

/// The closed set of navigation commands the input backend can report.
/// Any unrecognized key maps to `Other`, which changes nothing.
#[derive(Clone, Copy, PartialEq, Eq, Structural, Debug)]
pub enum NavCommand {
    Down,
    Up,
    PageDown,
    PageUp,
    First,
    Last,
    Confirm,
    Quit,
    Other,
}

/// The session after one command is dispatched: still running, ended with a
/// selected command, or ended with none.
pub enum SessionState {
    Running,
    Confirmed(String),
    Quit,
}

/// The index the cursor lands on after one navigation command, for a cursor
/// at `sel` over `len` entries and a viewport of `height` lines. Terminal
/// and unrecognized commands leave the cursor in place.
pub open spec fn next_index(cmd: NavCommand, sel: int, len: int, height: int) -> int {
    match cmd {
        NavCommand::Down => down_index(sel, len),
        NavCommand::Up => up_index(sel),
        NavCommand::PageDown => page_down_index(sel, len, height),
        NavCommand::PageUp => page_up_index(sel, height),
        NavCommand::First => 0,
        NavCommand::Last => len - 1,
        NavCommand::Confirm => sel,
        NavCommand::Quit => sel,
        NavCommand::Other => sel,
    }
}

/// Moving one step down and then one step up, in either order, from any
/// interior index returns the cursor to where it started.
pub proof fn lemma_move_round_trip(sel: int, len: int)
    requires
        0 < sel < len - 1,
    ensures
        up_index(down_index(sel, len)) == sel,
        down_index(up_index(sel), len) == sel,
{
}

/// A one-step move is a no-op at its boundary: down on the last index stays
/// on the last index, up on index zero stays on zero.
pub proof fn lemma_move_boundary_no_op(len: int)
    requires
        len >= 1,
    ensures
        down_index(len - 1, len) == len - 1,
        up_index(0) == 0,
{
}

/// Jumping to the newest entry and then to the oldest lands on index zero;
/// the reverse order lands on the last index. This holds from any cursor.
pub proof fn lemma_jump_round_trip(sel: int, len: int, height: int)
    requires
        len >= 1,
    ensures
        next_index(
            NavCommand::First,
            next_index(NavCommand::Last, sel, len, height),
            len,
            height,
        ) == 0,
        next_index(
            NavCommand::Last,
            next_index(NavCommand::First, sel, len, height),
            len,
            height,
        ) == len - 1,
{
}

/// A page move from a valid cursor lands on a valid index for every viewport
/// height: a page down never passes the last index and a page up never
/// passes zero.
pub proof fn lemma_page_moves_clamped(sel: int, len: int, height: int)
    requires
        0 <= sel < len,
        height >= 0,
    ensures
        0 <= page_down_index(sel, len, height) <= len - 1,
        0 <= page_up_index(sel, height) <= len - 1,
{
}

impl App {
    /// The commands held, each as its sequence of characters, oldest first.
    pub closed spec fn spec_commands(&self) -> Seq<Seq<char>> {
        Seq::new(self.commands@.len(), |i: int| self.commands@[i]@)
    }

    /// The number of commands held.
    pub open spec fn spec_len(&self) -> int {
        self.spec_commands().len() as int
    }

    /// The index of the highlighted command.
    pub closed spec fn spec_selected(&self) -> int {
        self.selected_idx as int
    }

    /// The engine's invariant: the list is non-empty, the cached length is
    /// the list's, and the cursor is a valid index.
    pub closed spec fn wf(&self) -> bool {
        &&& self.num_commands == self.commands@.len()
        &&& self.num_commands >= 1
        &&& self.selected_idx < self.num_commands
    }

    /// Builds the engine over a non-empty list, with the newest entry
    /// highlighted.
    pub fn new(commands: Vec<String>) -> (r: App)
        requires
            commands@.len() >= 1,
        ensures
            r.wf(),
            r.spec_commands() == Seq::new(commands@.len(), |i: int| commands@[i]@),
            r.spec_len() == commands@.len(),
            r.spec_selected() == commands@.len() - 1,
    {
        let num_commands = commands.len();
        App { commands, selected_idx: num_commands - 1, num_commands }
    }

    /// Moves the cursor one entry toward the newest; a no-op on the last
    /// entry.
    pub fn move_down(&mut self)
        requires
            old(self).wf(),
        ensures
            final(self).wf(),
            final(self).spec_commands() == old(self).spec_commands(),
            final(self).spec_selected() == down_index(
                old(self).spec_selected(),
                old(self).spec_len(),
            ),
    {
        if self.selected_idx + 1 < self.num_commands {
            self.selected_idx = self.selected_idx + 1;
        }
    }

    /// Moves the cursor one entry toward the oldest; a no-op on the first
    /// entry.
    pub fn move_up(&mut self)
        requires
            old(self).wf(),
        ensures
            final(self).wf(),
            final(self).spec_commands() == old(self).spec_commands(),
            final(self).spec_selected() == up_index(old(self).spec_selected()),
    {
        if self.selected_idx > 0 {
            self.selected_idx = self.selected_idx - 1;
        }
    }

    /// Moves the cursor almost a page toward the newest entry, clamped to the
    /// last index. Any viewport height is accepted, including one under two
    /// lines, which moves nothing.
    pub fn page_down(&mut self, height: usize)
        requires
            old(self).wf(),
        ensures
            final(self).wf(),
            final(self).spec_commands() == old(self).spec_commands(),
            final(self).spec_selected() == page_down_index(
                old(self).spec_selected(),
                old(self).spec_len(),
                height as int,
            ),
    {
        let jump: usize = if height >= 2 {
            height - 2
        } else {
            0
        };
        let last = self.num_commands - 1;
        if jump >= last - self.selected_idx {
            self.selected_idx = last;
        } else {
            self.selected_idx = self.selected_idx + jump;
        }
    }

    /// Moves the cursor almost a page toward the oldest entry, clamped to
    /// index zero. Any viewport height is accepted, including one under two
    /// lines, which moves nothing.
    pub fn page_up(&mut self, height: usize)
        requires
            old(self).wf(),
        ensures
            final(self).wf(),
            final(self).spec_commands() == old(self).spec_commands(),
            final(self).spec_selected() == page_up_index(
                old(self).spec_selected(),
                height as int,
            ),
    {
        let jump: usize = if height >= 2 {
            height - 2
        } else {
            0
        };
        if jump >= self.selected_idx {
            self.selected_idx = 0;
        } else {
            self.selected_idx = self.selected_idx - jump;
        }
    }

    /// Puts the cursor on the oldest entry.
    pub fn jump_to_oldest(&mut self)
        requires
            old(self).wf(),
        ensures
            final(self).wf(),
            final(self).spec_commands() == old(self).spec_commands(),
            final(self).spec_selected() == 0,
    {
        self.selected_idx = 0;
    }

    /// Puts the cursor on the newest entry.
    pub fn jump_to_newest(&mut self)
        requires
            old(self).wf(),
        ensures
            final(self).wf(),
            final(self).spec_commands() == old(self).spec_commands(),
            final(self).spec_selected() == old(self).spec_len() - 1,
    {
        self.selected_idx = self.num_commands - 1;
    }

    /// Computes the rows to paint for a viewport of `height` lines: a
    /// contiguous slice of the list, `min(height, len)` rows long, holding
    /// the cursor, each row tagged with its 1-based age (newest entry is 1)
    /// and whether it carries the cursor.
    pub fn visible_window(&self, height: usize) -> (rows: Vec<Row>)
        requires
            self.wf(),
            height >= 1,
        ensures
            rows@.len() == window_len(self.spec_len(), height as int),
            forall|j: int|
                0 <= j < rows@.len() ==> {
                    let idx = window_start(self.spec_selected(), height as int) + j;
                    &&& (#[trigger] rows@[j]).age == self.spec_len() - idx
                    &&& rows@[j].text@ == self.spec_commands()[idx]
                    &&& rows@[j].highlighted == (idx == self.spec_selected())
                },
            window_start(self.spec_selected(), height as int) <= self.spec_selected()
                < window_start(self.spec_selected(), height as int) + rows@.len(),
    {
        let start: usize = if self.selected_idx > height - 1 {
            self.selected_idx - (height - 1)
        } else {
            0
        };
        let end: usize = if height >= self.num_commands - start {
            self.num_commands
        } else {
            start + height
        };
        let mut rows: Vec<Row> = Vec::new();
        let mut i: usize = start;
        while i < end
            invariant
                self.wf(),
                height >= 1,
                start == window_start(self.spec_selected(), height as int),
                start <= i <= end <= self.spec_len(),
                end - start == window_len(self.spec_len(), height as int),
                rows@.len() == i - start,
                forall|j: int|
                    0 <= j < rows@.len() ==> {
                        let idx = start + j;
                        &&& (#[trigger] rows@[j]).age == self.spec_len() - idx
                        &&& rows@[j].text@ == self.spec_commands()[idx]
                        &&& rows@[j].highlighted == (idx == self.spec_selected())
                    },
            decreases end - i,
        {
            let row = Row {
                age: self.num_commands - i,
                text: self.commands[i].clone(),
                highlighted: i == self.selected_idx,
            };
            rows.push(row);
            i = i + 1;
        }
        rows
    }

    /// Hands out the highlighted command.
    pub fn confirm(&self) -> (r: String)
        requires
            self.wf(),
        ensures
            r@ == self.spec_commands()[self.spec_selected()],
    {
        self.commands[self.selected_idx].clone()
    }

    /// Dispatches one command for a viewport of `height` lines: a navigation
    /// command moves the cursor and keeps the session running, `Confirm` ends
    /// it with the highlighted command, `Quit` ends it with none, and an
    /// unrecognized command changes nothing.
    pub fn step(&mut self, cmd: NavCommand, height: usize) -> (r: SessionState)
        requires
            old(self).wf(),
        ensures
            final(self).wf(),
            final(self).spec_commands() == old(self).spec_commands(),
            final(self).spec_selected() == next_index(
                cmd,
                old(self).spec_selected(),
                old(self).spec_len(),
                height as int,
            ),
            cmd == NavCommand::Confirm ==> (r matches SessionState::Confirmed(s)
                && s@ == old(self).spec_commands()[old(self).spec_selected()]),
            cmd == NavCommand::Quit ==> r is Quit,
            cmd != NavCommand::Confirm && cmd != NavCommand::Quit ==> r is Running,
    {
        match cmd {
            NavCommand::Down => {
                self.move_down();
                SessionState::Running
            },
            NavCommand::Up => {
                self.move_up();
                SessionState::Running
            },
            NavCommand::PageDown => {
                self.page_down(height);
                SessionState::Running
            },
            NavCommand::PageUp => {
                self.page_up(height);
                SessionState::Running
            },
            NavCommand::First => {
                self.jump_to_oldest();
                SessionState::Running
            },
            NavCommand::Last => {
                self.jump_to_newest();
                SessionState::Running
            },
            NavCommand::Confirm => SessionState::Confirmed(self.confirm()),
            NavCommand::Quit => SessionState::Quit,
            NavCommand::Other => SessionState::Running,
        }
    }
}

} // verus!
