//! The step indicator's state, its layout, and the advance operation.

use vstd::prelude::*;
use crate::geometry::{Circle, Connector, Coord, DrawPlan, Label, Point, CIRCLE_RADIUS};

verus! {

/// Distance from a circle's centre to the centre of its label, in horizontal
/// layout (the label sits above the circle).
pub const LABEL_RISE: i64 = 24;

/// Distance from a circle's centre to the centre of its label, in vertical
/// layout (the label sits to the right of the circle).
pub const LABEL_INDENT: i64 = 128;

/// Font size of the labels.
pub const LABEL_SIZE: u64 = 16;

/// The axis along which the steps are laid out.
#[derive(Clone, Copy, Debug, PartialEq, Eq, Structural, Default)]
pub enum Mode {
    #[default]
    Horizontal,
    Vertical,
}

/// An 8-bit RGBA colour.
#[derive(Clone, Copy, Debug, PartialEq, Eq, Structural, Default)]
pub struct Rgba {
    pub r: u8,
    pub g: u8,
    pub b: u8,
    pub a: u8,
}

/// Why a step indicator could not be built.
#[derive(Clone, Copy, Debug, PartialEq, Eq, Structural)]
pub enum StepError {
    /// The list of step labels is empty.
    EmptySteps,
}

/// The state of a step indicator: its labels in order, the index of the step in
/// progress, the colour of the connectors and the layout axis.
#[derive(Clone, Debug, Default)]
pub struct ProgressStep {
    pub steps: Vec<String>,
    pub current_step: usize,
    pub dash_color: Rgba,
    pub mode: Mode,
}

/// What is appended to the label of a completed step: a space and a check mark.
pub open spec fn check_suffix() -> Seq<char> {
    seq![' ', '\u{2705}']
}

/// The text shown for a step labelled `label`.
pub open spec fn label_text(label: Seq<char>, done: bool) -> Seq<char> {
    if done {
        label + check_suffix()
    } else {
        label
    }
}

/// The centre of slot `i` of `n` equal slots along an axis: the fraction
/// `(i + 1/2) / n` of the extent.
pub open spec fn slot_center(i: int, n: int) -> Coord {
    Coord { num: (2 * i + 1) as u128, den: (2 * n) as u128, offset: 0 }
}

/// The middle of the cross axis, moved by `d` units.
pub open spec fn middle(d: int) -> Coord {
    Coord { num: 1, den: 2, offset: d as i64 }
}

/// A point given by its coordinates along and across the layout axis.
pub open spec fn place(mode: Mode, along: Coord, across: Coord) -> Point {
    match mode {
        Mode::Horizontal => Point { x: along, y: across },
        Mode::Vertical => Point { x: across, y: along },
    }
}

/// The coordinate of `p` along the layout axis.
pub open spec fn along(mode: Mode, p: Point) -> Coord {
    match mode {
        Mode::Horizontal => p.x,
        Mode::Vertical => p.y,
    }
}

/// The coordinate of `p` across the layout axis.
pub open spec fn across(mode: Mode, p: Point) -> Coord {
    match mode {
        Mode::Horizontal => p.y,
        Mode::Vertical => p.x,
    }
}

/// Circle `i` of `n`.
pub open spec fn circle_at(mode: Mode, i: int, n: int) -> Circle {
    Circle { center: place(mode, slot_center(i, n), middle(0)), radius: CIRCLE_RADIUS }
}

/// Where the label of step `i` of `n` is centred: above its circle in
/// horizontal layout, to its right in vertical layout.
pub open spec fn label_position(mode: Mode, i: int, n: int) -> Point {
    match mode {
        Mode::Horizontal => Point { x: slot_center(i, n), y: middle(-LABEL_RISE) },
        Mode::Vertical => Point { x: middle(LABEL_INDENT as int), y: slot_center(i, n) },
    }
}

/// Connector `k` of a layout of `n` steps, between circles `k` and `k + 1`,
/// stopping a circle radius short of each centre.
pub open spec fn connector_at(mode: Mode, k: int, n: int) -> Connector {
    Connector {
        from: place(mode, shifted_slot(k, n, CIRCLE_RADIUS as int), middle(0)),
        to: place(mode, shifted_slot(k + 1, n, -(CIRCLE_RADIUS as int)), middle(0)),
    }
}

/// The centre of slot `i` of `n`, moved by `d` units along the axis.
pub open spec fn shifted_slot(i: int, n: int, d: int) -> Coord {
    Coord { offset: d as i64, ..slot_center(i, n) }
}

/// The number of connectors in a layout of `n` steps.
pub open spec fn connector_count(n: int) -> int {
    if n == 0 {
        0
    } else {
        n - 1
    }
}

/// `plan` is the frame drawn for steps labelled `labels`, with step `current`
/// in progress, laid out along `mode`: one circle, label and slot per step, in
/// order, and one connector between each two neighbouring circles.
pub open spec fn plan_matches(labels: Seq<Seq<char>>, current: int, mode: Mode, plan: DrawPlan) -> bool {
    let n = labels.len() as int;
    &&& plan.circles@.len() == n
    &&& plan.labels@.len() == n
    &&& plan.connectors@.len() == connector_count(n)
    &&& forall|i: int| 0 <= i < n ==> #[trigger] plan.circles@[i] == circle_at(mode, i, n)
    &&& forall|i: int|
        0 <= i < n ==> {
            &&& (#[trigger] plan.labels@[i]).text@ == label_text(labels[i], i < current)
            &&& plan.labels@[i].bold == (i == current)
            &&& plan.labels@[i].position == label_position(mode, i, n)
        }
    &&& forall|k: int|
        0 <= k < connector_count(n) ==> #[trigger] plan.connectors@[k] == connector_at(mode, k, n)
}

impl ProgressStep {
    /// The labels as character sequences.
    pub open spec fn labels(&self) -> Seq<Seq<char>> {
        self.steps@.map_values(|s: String| s@)
    }

    /// `plan` is the frame this indicator draws.
    pub open spec fn renders(&self, plan: DrawPlan) -> bool {
        plan_matches(self.labels(), self.current_step as int, self.mode, plan)
    }

    /// The state after one advance: the next step, or the first one after the
    /// last.
    pub open spec fn advanced(&self) -> ProgressStep {
        ProgressStep {
            current_step: if self.current_step + 1 >= self.steps@.len() {
                0
            } else {
                (self.current_step + 1) as usize
            },
            ..*self
        }
    }
}

/// The centre of slot `i` of `n`, moved by `d` units along the axis.
fn slot(i: usize, n: usize, d: i64) -> (r: Coord)
    requires
        i < n,
    ensures
        r == shifted_slot(i as int, n as int, d as int),
{
    Coord { num: 2 * (i as u128) + 1, den: 2 * (n as u128), offset: d }
}

/// The middle of the cross axis, moved by `d` units.
fn mid(d: i64) -> (r: Coord)
    ensures
        r == middle(d as int),
{
    Coord { num: 1, den: 2, offset: d }
}

/// The point at `along` on the layout axis and `across` on the other.
fn locate(mode: Mode, along: Coord, across: Coord) -> (r: Point)
    ensures
        r == place(mode, along, across),
{
    match mode {
        Mode::Horizontal => Point { x: along, y: across },
        Mode::Vertical => Point { x: across, y: along },
    }
}

/// Where the label of step `i` of `n` is centred.
fn label_spot(mode: Mode, i: usize, n: usize) -> (r: Point)
    requires
        i < n,
    ensures
        r == label_position(mode, i as int, n as int),
{
    match mode {
        Mode::Horizontal => Point { x: slot(i, n, 0), y: mid(-LABEL_RISE) },
        Mode::Vertical => Point { x: mid(LABEL_INDENT), y: slot(i, n, 0) },
    }
}

impl ProgressStep {
    /// Builds an indicator, rejecting an empty list of steps.
    pub fn new(steps: Vec<String>, current_step: usize, dash_color: Rgba, mode: Mode) -> (r: Result<
        ProgressStep,
        StepError,
    >)
        ensures
            steps@.len() == 0 <==> r == Err::<ProgressStep, StepError>(StepError::EmptySteps),
            r matches Ok(p) ==> p.steps@ == steps@ && p.current_step == current_step
                && p.dash_color == dash_color && p.mode == mode,
    {
        if steps.len() == 0 {
            Err(StepError::EmptySteps)
        } else {
            Ok(ProgressStep { steps, current_step, dash_color, mode })
        }
    }

    /// The text shown for step `i`: its label, followed by a check mark if the
    /// step comes before the current one.
    pub fn label_for(&self, i: usize) -> (r: String)
        requires
            i < self.steps@.len(),
        ensures
            r@ == label_text(self.steps@[i as int]@, i < self.current_step),
    {
        if i < self.current_step {
            proof {
                reveal_strlit(" \u{2705}");
            }
            let text = self.steps[i].clone().concat(" \u{2705}");
            assert(text@ =~= label_text(self.steps@[i as int]@, true));
            text
        } else {
            self.steps[i].clone()
        }
    }

    /// The frame of this indicator laid out along `mode`.
    fn layout(&self, mode: Mode) -> (plan: DrawPlan)
        ensures
            plan_matches(self.labels(), self.current_step as int, mode, plan),
    {
        let n = self.steps.len();
        let ghost labels = self.labels();
        let mut circles: Vec<Circle> = Vec::new();
        let mut labels_out: Vec<Label> = Vec::new();
        let mut connectors: Vec<Connector> = Vec::new();
        let mut i: usize = 0;
        while i < n
            invariant
                n == self.steps@.len(),
                labels == self.labels(),
                i <= n,
                circles@.len() == i,
                labels_out@.len() == i,
                connectors@.len() == connector_count(i as int),
                forall|j: int| 0 <= j < i ==> #[trigger] circles@[j] == circle_at(mode, j, n as int),
                forall|j: int|
                    0 <= j < i ==> {
                        &&& (#[trigger] labels_out@[j]).text@ == label_text(
                            labels[j],
                            j < self.current_step,
                        )
                        &&& labels_out@[j].bold == (j == self.current_step)
                        &&& labels_out@[j].position == label_position(mode, j, n as int)
                    },
                forall|k: int|
                    0 <= k < connector_count(i as int) ==> #[trigger] connectors@[k]
                        == connector_at(mode, k, n as int),
            decreases n - i,
        {
            let center = locate(mode, slot(i, n, 0), mid(0));
            circles.push(Circle { center, radius: CIRCLE_RADIUS });
            let text = self.label_for(i);
            let position = label_spot(mode, i, n);
            labels_out.push(Label { text, position, bold: i == self.current_step });
            if i > 0 {
                let from = locate(mode, slot(i - 1, n, CIRCLE_RADIUS as i64), mid(0));
                let to = locate(mode, slot(i, n, -(CIRCLE_RADIUS as i64)), mid(0));
                connectors.push(Connector { from, to });
            }
            i = i + 1;
        }
        DrawPlan { circles, labels: labels_out, connectors }
    }

    /// The frame of this indicator with the steps in a row: labels above the
    /// circles, connectors horizontal.
    pub fn draw_horizontal(&self) -> (plan: DrawPlan)
        ensures
            plan_matches(self.labels(), self.current_step as int, Mode::Horizontal, plan),
    {
        self.layout(Mode::Horizontal)
    }

    /// The frame of this indicator with the steps in a column: labels to the
    /// right of the circles, connectors vertical.
    pub fn draw_vertical(&self) -> (plan: DrawPlan)
        ensures
            plan_matches(self.labels(), self.current_step as int, Mode::Vertical, plan),
    {
        self.layout(Mode::Vertical)
    }

    /// The frame of this indicator, laid out along its own mode. With no steps
    /// it draws nothing.
    pub fn draw(&self) -> (plan: DrawPlan)
        ensures
            self.renders(plan),
    {
        match self.mode {
            Mode::Horizontal => self.draw_horizontal(),
            Mode::Vertical => self.draw_vertical(),
        }
    }

    /// Moves to the next step, or back to the first after the last.
    pub fn advance(&mut self)
        ensures
            *final(self) == old(self).advanced(),
    {
        if self.current_step >= self.steps.len() || self.steps.len() - self.current_step <= 1 {
            self.current_step = 0;
        } else {
            self.current_step = self.current_step + 1;
        }
    }
}

} // verus!
