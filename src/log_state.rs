//! The append-only log and the view that shows its newest lines.

use vstd::prelude::*;
use crate::area::Area;

verus! {

/// The lines that a log view shows for `history` when it has room for `rows`
/// lines: the newest ones, oldest first.
pub open spec fn last_lines(history: Seq<Seq<char>>, rows: nat) -> Seq<Seq<char>> {
    if history.len() <= rows {
        history
    } else {
        history.subrange(history.len() - rows, history.len() as int)
    }
}

/// The lines of a log that held `lines` after `msgs` were written to it one
/// by one with `LogWidgetState::write_line`.
pub open spec fn written(lines: Seq<Seq<char>>, msgs: Seq<Seq<char>>) -> Seq<Seq<char>>
    decreases msgs.len(),
{
    if msgs.len() == 0 {
        lines
    } else {
        written(lines, msgs.drop_last()).push(msgs.last())
    }
}

/// Writing lines one by one keeps the earlier lines and adds the new ones
/// after them, in the order they were written.
pub proof fn law_writes_in_order(lines: Seq<Seq<char>>, msgs: Seq<Seq<char>>)
    ensures
        written(lines, msgs) == lines + msgs,
        written(lines, msgs).len() == lines.len() + msgs.len(),
    decreases msgs.len(),
{
    if msgs.len() > 0 {
        law_writes_in_order(lines, msgs.drop_last());
        assert(written(lines, msgs) =~= lines + msgs);
    } else {
        assert(lines + msgs =~= lines);
    }
}

/// After a flush, which leaves no lines, the log holds exactly the lines
/// written since, and none from before the flush.
pub proof fn law_flush_restarts(msgs: Seq<Seq<char>>)
    ensures
        written(Seq::<Seq<char>>::empty(), msgs) == msgs,
        written(Seq::<Seq<char>>::empty(), msgs).len() == msgs.len(),
{
    law_writes_in_order(Seq::<Seq<char>>::empty(), msgs);
    assert(Seq::<Seq<char>>::empty() + msgs =~= msgs);
}

/// For `rows` free rows and a log of `history.len()` lines the view shows
/// `min(rows, history.len())` lines: the newest ones, in chronological
/// order.
pub proof fn law_visible_window(history: Seq<Seq<char>>, rows: nat)
    ensures
        last_lines(history, rows).len() == if rows < history.len() {
            rows as int
        } else {
            history.len() as int
        },
        forall|i: int|
            0 <= i < last_lines(history, rows).len() ==> #[trigger] last_lines(history, rows)[i]
                == history[history.len() - last_lines(history, rows).len() + i],
{
}

/// Chronological log of text lines. Appending never reorders or drops
/// earlier lines; `flush` empties it.
#[derive(Clone, Debug)]
pub struct LogWidgetState {
    pub history: Vec<String>,
}

impl LogWidgetState {
    /// The lines of the log, oldest first.
    pub open spec fn lines(&self) -> Seq<Seq<char>> {
        self.history@.map_values(|s: String| s@)
    }

    pub fn new() -> (r: LogWidgetState)
        ensures
            r.lines() == Seq::<Seq<char>>::empty(),
    {
        LogWidgetState { history: Vec::new() }
    }

    pub fn len(&self) -> (r: usize)
        ensures
            r == self.lines().len(),
    {
        self.history.len()
    }

    /// Appends `message` as the newest line.
    pub fn write_line(&mut self, message: &str)
        ensures
            final(self).lines() == old(self).lines().push(message@),
    {
        let line = message.to_owned();
        self.history.push(line);
        proof {
            assert(final(self).lines() =~= old(self).lines().push(message@));
        }
    }

    /// Removes every line.
    pub fn flush(&mut self)
        ensures
            final(self).lines() == Seq::<Seq<char>>::empty(),
    {
        self.history.clear();
        proof {
            assert(final(self).lines() =~= Seq::<Seq<char>>::empty());
        }
    }
}

impl Default for LogWidgetState {
    fn default() -> (r: LogWidgetState)
        ensures
            r.lines() == Seq::<Seq<char>>::empty(),
    {
        LogWidgetState::new()
    }
}

/// One line of text to be drawn with its first character at column `x`,
/// row `y`.
#[derive(Clone, Debug)]
pub struct Placement {
    pub x: u16,
    pub y: u16,
    pub text: String,
}

/// A view of a `LogWidgetState` that shows as many of its newest lines as fit
/// in a region, keeping its bottom row free.
#[derive(Clone, Copy, Debug, Default)]
pub struct LogWidget {}

impl LogWidget {
    pub fn new() -> (r: LogWidget) {
        LogWidget {}
    }

    /// The lines to draw for `state` in `area`: the newest
    /// `min(area.height - 1, len)` lines in chronological order, the i-th of
    /// them at the left edge of the i-th row of the area.
    pub fn render(&self, area: Area, state: &LogWidgetState) -> (r: Vec<Placement>)
        requires
            area.height >= 1,
            area.y + area.height <= u16::MAX,
        ensures
            r@.len() == last_lines(state.lines(), (area.height - 1) as nat).len(),
            forall|i: int|
                0 <= i < r@.len() ==> {
                    &&& (#[trigger] r@[i]).x == area.x
                    &&& r@[i].y == area.y + i
                    &&& r@[i].text@ == last_lines(state.lines(), (area.height - 1) as nat)[i]
                },
    {
        let max_lines = area.height - 1;
        let n = state.history.len();
        let start: usize = if n <= max_lines as usize {
            0
        } else {
            n - max_lines as usize
        };
        let ghost shown = last_lines(state.lines(), max_lines as nat);
        let mut out: Vec<Placement> = Vec::new();
        let mut k: usize = start;
        while k < n
            invariant
                start <= k <= n,
                n == state.history@.len(),
                n - start <= max_lines,
                max_lines == area.height - 1,
                area.y + area.height <= u16::MAX,
                shown == last_lines(state.lines(), max_lines as nat),
                shown.len() == n - start,
                forall|j: int| 0 <= j < shown.len() ==> shown[j] == state.lines()[start + j],
                out@.len() == k - start,
                forall|i: int|
                    0 <= i < out@.len() ==> {
                        &&& (#[trigger] out@[i]).x == area.x
                        &&& out@[i].y == area.y + i
                        &&& out@[i].text@ == shown[i]
                    },
            decreases n - k,
        {
            let row: u16 = (k - start) as u16;
            let text = state.history[k].clone();
            out.push(Placement { x: area.left(), y: area.top() + row, text });
            k = k + 1;
        }
        out
    }
}

} // verus!
