//! Change detection for the three polled signals, and the text of the lines
//! it logs.

use vstd::prelude::*;
use vstd::string::*;
use crate::log_state::LogWidgetState;
use crate::numeric::{current_rank, parse_i32, previous_rank, rank_current, rank_previous};

verus! {

/// One of the three polled signals.
#[derive(Clone, Copy, Debug, PartialEq, Eq, Structural)]
pub enum Signal {
    Weeble,
    Blockheight,
    Wobble,
}

/// Values of the three signals: weeble, block height, wobble.
pub type Triple = (Seq<char>, Seq<char>, Seq<char>);

pub open spec fn field(t: Triple, signal: Signal) -> Seq<char> {
    match signal {
        Signal::Weeble => t.0,
        Signal::Blockheight => t.1,
        Signal::Wobble => t.2,
    }
}

/// `t` with the value of `signal` replaced by `v`.
pub open spec fn with_field(t: Triple, signal: Signal, v: Seq<char>) -> Triple {
    match signal {
        Signal::Weeble => (v, t.1, t.2),
        Signal::Blockheight => (t.0, v, t.2),
        Signal::Wobble => (t.0, t.1, v),
    }
}

/// A freshly fetched value `curr` counts as advanced over the last seen
/// value `prev` from the second tick on, when its rank is at least that of
/// `prev`.
pub open spec fn advanced(prev: Seq<char>, curr: Seq<char>, tick: int) -> bool {
    tick > 0 && current_rank(curr) >= previous_rank(prev)
}

/// The log line for a triple: `weeble/blockheight/wobble`.
pub open spec fn triple_text(t: Triple) -> Seq<char> {
    t.0 + seq!['/'] + t.1 + seq!['/'] + t.2
}

/// The title of the log panel for a triple.
pub open spec fn title_text(t: Triple) -> Seq<char> {
    "──[\"GNOSTR\",{\"weeble\": "@ + t.0 + ", \"blockheight\": "@ + t.1 + ", \"wobble\": "@ + t.2
        + "}]"@
}

/// When the last seen and the fetched value are both integers and the
/// fetched one is not smaller, the fetched one counts as advanced from the
/// second tick on.
pub proof fn law_growth_advances(prev: Seq<char>, curr: Seq<char>, tick: int)
    requires
        parse_i32(prev) is Some,
        parse_i32(curr) is Some,
        parse_i32(curr)->0 >= parse_i32(prev)->0,
        tick > 0,
    ensures
        advanced(prev, curr, tick),
{
}

/// When both values are integers and the fetched one is smaller, it never
/// counts as advanced.
pub proof fn law_decline_holds(prev: Seq<char>, curr: Seq<char>, tick: int)
    requires
        parse_i32(prev) is Some,
        parse_i32(curr) is Some,
        parse_i32(curr)->0 < parse_i32(prev)->0,
    ensures
        !advanced(prev, curr, tick),
{
}

/// On the first tick nothing counts as advanced.
pub proof fn law_first_tick_never_advances(prev: Seq<char>, curr: Seq<char>)
    ensures
        !advanced(prev, curr, 0),
{
}

/// A fetched value that is not an `i32` counts as advanced over any last
/// seen value from the second tick on.
pub proof fn law_unreadable_current_advances(prev: Seq<char>, curr: Seq<char>, tick: int)
    requires
        parse_i32(curr) is None,
        tick > 0,
    ensures
        advanced(prev, curr, tick),
{
}

/// A last seen value that is not an `i32` ranks as zero: it does not hold
/// back a fetched value that is unreadable or a non-negative integer.
pub proof fn law_unreadable_previous_yields(prev: Seq<char>, curr: Seq<char>, tick: int)
    requires
        parse_i32(prev) is None,
        parse_i32(curr) is None || parse_i32(curr)->0 >= 0,
        tick > 0,
    ensures
        advanced(prev, curr, tick),
{
}

/// Whether `curr` counts as advanced over `prev` at tick `tick`.
pub fn is_advanced(prev: &str, curr: &str, tick: u64) -> (r: bool)
    ensures
        r == advanced(prev@, curr@, tick as int),
{
    tick > 0 && rank_current(curr) >= rank_previous(prev)
}

/// The last seen value of each signal.
#[derive(Clone, Debug)]
pub struct ValueSnapshot {
    pub weeble: String,
    pub blockheight: String,
    pub wobble: String,
}

impl View for ValueSnapshot {
    type V = Triple;

    open spec fn view(&self) -> Triple {
        (self.weeble@, self.blockheight@, self.wobble@)
    }
}

impl ValueSnapshot {
    pub fn new(weeble: String, blockheight: String, wobble: String) -> (r: ValueSnapshot)
        ensures
            r@ == (weeble@, blockheight@, wobble@),
    {
        ValueSnapshot { weeble, blockheight, wobble }
    }

    /// The value held for `signal`.
    pub fn get(&self, signal: Signal) -> (r: &String)
        ensures
            r@ == field(self@, signal),
    {
        match signal {
            Signal::Weeble => &self.weeble,
            Signal::Blockheight => &self.blockheight,
            Signal::Wobble => &self.wobble,
        }
    }

    /// Replaces the value held for `signal` by `v`.
    pub fn set(&mut self, signal: Signal, v: String)
        ensures
            final(self)@ == with_field(old(self)@, signal, v@),
    {
        match signal {
            Signal::Weeble => self.weeble = v,
            Signal::Blockheight => self.blockheight = v,
            Signal::Wobble => self.wobble = v,
        }
    }

    /// `weeble/blockheight/wobble`.
    pub fn line(&self) -> (r: String)
        ensures
            r@ == triple_text(self@),
    {
        let mut s = self.weeble.clone();
        s.append("/");
        s.append(self.blockheight.as_str());
        s.append("/");
        s.append(self.wobble.as_str());
        proof {
            reveal_strlit("/");
            assert(s@ =~= triple_text(self@));
        }
        s
    }

    /// The title of the log panel, which shows the three values.
    pub fn title(&self) -> (r: String)
        ensures
            r@ == title_text(self@),
    {
        let mut s = String::from_str("──[\"GNOSTR\",{\"weeble\": ");
        s.append(self.weeble.as_str());
        s.append(", \"blockheight\": ");
        s.append(self.blockheight.as_str());
        s.append(", \"wobble\": ");
        s.append(self.wobble.as_str());
        s.append("}]");
        s
    }
}

/// The change detector's state: the snapshot of last seen values and the
/// number of ticks completed.
#[derive(Clone, Debug)]
pub struct Monitor {
    pub snapshot: ValueSnapshot,
    pub tick: u64,
}

impl Monitor {
    /// Starts at tick zero with the first values observed, and logs them.
    pub fn start(first: ValueSnapshot, log: &mut LogWidgetState) -> (r: Monitor)
        ensures
            r.snapshot@ == first@,
            r.tick == 0,
            final(log).lines() == old(log).lines().push(triple_text(first@)),
    {
        let line = first.line();
        log.write_line(line.as_str());
        Monitor { snapshot: first, tick: 0 }
    }

    /// Compares the freshly fetched value `curr` of `signal` with the last
    /// seen one. If it counts as advanced, the snapshot takes `curr` and one
    /// line is logged: `fresh` with `curr` in place of `signal`'s value.
    /// Otherwise neither the snapshot nor the log changes. Returns whether
    /// it counted as advanced.
    pub fn observe(
        &mut self,
        log: &mut LogWidgetState,
        signal: Signal,
        curr: String,
        fresh: &ValueSnapshot,
    ) -> (r: bool)
        ensures
            r == advanced(field(old(self).snapshot@, signal), curr@, old(self).tick as int),
            final(self).tick == old(self).tick,
            r ==> final(self).snapshot@ == with_field(old(self).snapshot@, signal, curr@),
            r ==> final(log).lines() == old(log).lines().push(
                triple_text(with_field(fresh@, signal, curr@)),
            ),
            !r ==> final(self).snapshot@ == old(self).snapshot@,
            !r ==> final(log).lines() == old(log).lines(),
    {
        let adv = is_advanced(self.snapshot.get(signal).as_str(), curr.as_str(), self.tick);
        if adv {
            let mut shown = ValueSnapshot::new(
                fresh.weeble.clone(),
                fresh.blockheight.clone(),
                fresh.wobble.clone(),
            );
            shown.set(signal, curr.clone());
            let line = shown.line();
            log.write_line(line.as_str());
            self.snapshot.set(signal, curr);
        }
        adv
    }

    /// Ends a tick: logs `fresh`, the values fetched at its end, and counts
    /// the tick. The count stops at `u64::MAX`.
    pub fn end_tick(&mut self, log: &mut LogWidgetState, fresh: &ValueSnapshot)
        ensures
            final(self).snapshot@ == old(self).snapshot@,
            final(self).tick == if old(self).tick < u64::MAX {
                old(self).tick + 1
            } else {
                old(self).tick as int
            },
            final(log).lines() == old(log).lines().push(triple_text(fresh@)),
    {
        let line = fresh.line();
        log.write_line(line.as_str());
        if self.tick < u64::MAX {
            self.tick = self.tick + 1;
        }
    }
}

} // verus!
