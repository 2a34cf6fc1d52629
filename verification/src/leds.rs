//! The output renderer: maps a fan state onto four binary indicator
//! lines — one off-indicator (asserted exactly when the fan is off) and
//! one line per speed tier (asserted exactly when that tier is active and
//! the power is on) — as an ordered list of line writes whose order never
//! lets an observer see two tier lines asserted at once.

use vstd::prelude::*;
use crate::fan::{Fan, Speed};

verus! {

/// One of the four physical indicator lines.
#[derive(Debug, PartialEq, Eq, Structural, Clone, Copy)]
pub enum Line {
    OnOff,
    Speed1,
    Speed2,
    Speed3,
}

/// A single write: drive `line` to `high`.
#[derive(Debug, PartialEq, Eq, Structural, Clone, Copy)]
pub struct LineWrite {
    pub line: Line,
    pub high: bool,
}

/// The levels of the four lines at one instant.
#[derive(Debug, PartialEq, Eq, Structural, Clone, Copy)]
pub struct LedLevels {
    pub on_off: bool,
    pub speed_1: bool,
    pub speed_2: bool,
    pub speed_3: bool,
}

/// The levels that a fan state must end up rendered as: the off-indicator
/// is asserted exactly when the power is off, and a tier line is asserted
/// exactly when the power is on and that tier is active.
pub open spec fn target_levels(f: Fan) -> LedLevels {
    LedLevels {
        on_off: !f.on,
        speed_1: f.on && f.speed == Speed::Low,
        speed_2: f.on && f.speed == Speed::Medium,
        speed_3: f.on && f.speed == Speed::High,
    }
}

/// At most one of the three tier lines is asserted.
pub open spec fn at_most_one_tier(l: LedLevels) -> bool {
    &&& !(l.speed_1 && l.speed_2)
    &&& !(l.speed_1 && l.speed_3)
    &&& !(l.speed_2 && l.speed_3)
}

/// The effect of one write on the line levels.
pub open spec fn apply_write(l: LedLevels, w: LineWrite) -> LedLevels {
    match w.line {
        Line::OnOff => LedLevels { on_off: w.high, ..l },
        Line::Speed1 => LedLevels { speed_1: w.high, ..l },
        Line::Speed2 => LedLevels { speed_2: w.high, ..l },
        Line::Speed3 => LedLevels { speed_3: w.high, ..l },
    }
}

/// The levels after performing a list of writes in order.
pub open spec fn apply_plan(l: LedLevels, s: Seq<LineWrite>) -> LedLevels
    decreases s.len(),
{
    if s.len() == 0 {
        l
    } else {
        apply_plan(apply_write(l, s[0]), s.drop_first())
    }
}

pub open spec fn write(line: Line, high: bool) -> LineWrite {
    LineWrite { line: line, high: high }
}

/// The glitch-free write order for a fan state. While on: de-assert the
/// off-indicator, de-assert the two inactive tier lines, and only then
/// assert the active tier line — never before. While off: assert the
/// off-indicator first, then de-assert all three tier lines.
pub open spec fn plan_of(f: Fan) -> Seq<LineWrite> {
    if f.on {
        match f.speed {
            Speed::Low => seq![
                write(Line::OnOff, false),
                write(Line::Speed2, false),
                write(Line::Speed3, false),
                write(Line::Speed1, true),
            ],
            Speed::Medium => seq![
                write(Line::OnOff, false),
                write(Line::Speed1, false),
                write(Line::Speed3, false),
                write(Line::Speed2, true),
            ],
            Speed::High => seq![
                write(Line::OnOff, false),
                write(Line::Speed1, false),
                write(Line::Speed2, false),
                write(Line::Speed3, true),
            ],
        }
    } else {
        seq![
            write(Line::OnOff, true),
            write(Line::Speed1, false),
            write(Line::Speed2, false),
            write(Line::Speed3, false),
        ]
    }
}

/// Computes the ordered writes that render a fan state onto the four
/// lines. The caller performs them on the physical lines in this order.
pub fn render_plan(fan: &Fan) -> (r: Vec<LineWrite>)
    ensures
        r@ == plan_of(*fan),
{
    let mut r: Vec<LineWrite> = Vec::new();
    if fan.is_on() {
        r.push(LineWrite { line: Line::OnOff, high: false });
        match fan.get_speed() {
            Speed::Low => {
                r.push(LineWrite { line: Line::Speed2, high: false });
                r.push(LineWrite { line: Line::Speed3, high: false });
                r.push(LineWrite { line: Line::Speed1, high: true });
            },
            Speed::Medium => {
                r.push(LineWrite { line: Line::Speed1, high: false });
                r.push(LineWrite { line: Line::Speed3, high: false });
                r.push(LineWrite { line: Line::Speed2, high: true });
            },
            Speed::High => {
                r.push(LineWrite { line: Line::Speed1, high: false });
                r.push(LineWrite { line: Line::Speed2, high: false });
                r.push(LineWrite { line: Line::Speed3, high: true });
            },
        }
    } else {
        r.push(LineWrite { line: Line::OnOff, high: true });
        r.push(LineWrite { line: Line::Speed1, high: false });
        r.push(LineWrite { line: Line::Speed2, high: false });
        r.push(LineWrite { line: Line::Speed3, high: false });
    }
    proof {
        assert(r@ =~= plan_of(*fan));
    }
    r
}

/// Unrolls `apply_plan` over a four-write list, for each prefix.
proof fn lemma_apply4(l: LedLevels, w0: LineWrite, w1: LineWrite, w2: LineWrite, w3: LineWrite)
    ensures
        apply_plan(l, seq![w0, w1, w2, w3].take(0)) == l,
        apply_plan(l, seq![w0, w1, w2, w3].take(1)) == apply_write(l, w0),
        apply_plan(l, seq![w0, w1, w2, w3].take(2)) == apply_write(apply_write(l, w0), w1),
        apply_plan(l, seq![w0, w1, w2, w3].take(3)) == apply_write(
            apply_write(apply_write(l, w0), w1),
            w2,
        ),
        apply_plan(l, seq![w0, w1, w2, w3]) == apply_write(
            apply_write(apply_write(apply_write(l, w0), w1), w2),
            w3,
        ),
{
    reveal_with_fuel(apply_plan, 5);
    let s = seq![w0, w1, w2, w3];
    assert(s.take(0) =~= Seq::<LineWrite>::empty());
    assert(s.take(1) =~= seq![w0]);
    assert(s.take(2) =~= seq![w0, w1]);
    assert(s.take(3) =~= seq![w0, w1, w2]);
    assert(seq![w0].drop_first() =~= Seq::<LineWrite>::empty());
    assert(seq![w0, w1].drop_first() =~= seq![w1]);
    assert(seq![w1].drop_first() =~= Seq::<LineWrite>::empty());
    assert(seq![w0, w1, w2].drop_first() =~= seq![w1, w2]);
    assert(seq![w1, w2].drop_first() =~= seq![w2]);
    assert(seq![w2].drop_first() =~= Seq::<LineWrite>::empty());
    assert(s.drop_first() =~= seq![w1, w2, w3]);
    assert(seq![w1, w2, w3].drop_first() =~= seq![w2, w3]);
    assert(seq![w2, w3].drop_first() =~= seq![w3]);
    assert(seq![w3].drop_first() =~= Seq::<LineWrite>::empty());
}

/// Performing the plan for a fan state, starting from any line levels,
/// ends at exactly the target levels of that state.
pub proof fn lemma_plan_reaches_target(f: Fan, start: LedLevels)
    ensures
        apply_plan(start, plan_of(f)) == target_levels(f),
{
    let p = plan_of(f);
    lemma_apply4(start, p[0], p[1], p[2], p[3]);
    assert(p =~= seq![p[0], p[1], p[2], p[3]]);
}

/// The target levels are safe: at most one tier line is asserted, and the
/// off-indicator is asserted if and only if the power is off.
pub proof fn lemma_target_safe(f: Fan)
    ensures
        at_most_one_tier(target_levels(f)),
        target_levels(f).on_off == !f.on,
{
}

/// Glitch freedom: starting from any levels with at most one tier line
/// asserted, every intermediate instant of the plan — after any prefix of
/// its writes — still has at most one tier line asserted.
pub proof fn lemma_plan_no_flicker(f: Fan, start: LedLevels)
    requires
        at_most_one_tier(start),
    ensures
        forall|i: int|
            0 <= i <= plan_of(f).len() ==> at_most_one_tier(
                #[trigger] apply_plan(start, plan_of(f).take(i)),
            ),
{
    let p = plan_of(f);
    lemma_apply4(start, p[0], p[1], p[2], p[3]);
    assert(p =~= seq![p[0], p[1], p[2], p[3]]);
    assert(p.take(4) =~= p);
    assert forall|i: int| 0 <= i <= p.len() implies at_most_one_tier(
        #[trigger] apply_plan(start, p.take(i)),
    ) by {
        assert(i == 0 || i == 1 || i == 2 || i == 3 || i == 4);
    }
}

} // verus!
