use neora_core::geometry::{Coord, DrawPlan, Point, CIRCLE_RADIUS};
use neora_core::installer::{Message, NeoraInstaller};
use neora_core::progress_step::{Mode, ProgressStep, Rgba, StepError};

const BLACK: Rgba = Rgba { r: 0, g: 0, b: 0, a: 255 };

fn indicator(labels: &[&str], current_step: usize, mode: Mode) -> ProgressStep {
    ProgressStep {
        steps: labels.iter().map(|s| s.to_string()).collect(),
        current_step,
        dash_color: BLACK,
        mode,
    }
}

fn c(num: u128, den: u128, offset: i64) -> Coord {
    Coord { num, den, offset }
}

fn texts(plan: &DrawPlan) -> Vec<(String, bool)> {
    plan.labels.iter().map(|l| (l.text.clone(), l.bold)).collect()
}

#[test]
fn three_steps_second_current() {
    let p = indicator(&["A", "B", "C"], 1, Mode::Horizontal);
    let plan = p.draw();
    assert_eq!(
        texts(&plan),
        vec![
            ("A \u{2705}".to_string(), false),
            ("B".to_string(), true),
            ("C".to_string(), false),
        ]
    );
    assert_eq!(plan.circles.len(), 3);
    assert_eq!(plan.connectors.len(), 2);
}

#[test]
fn empty_steps_rejected() {
    let r = ProgressStep::new(Vec::new(), 0, BLACK, Mode::Horizontal);
    assert_eq!(r.err(), Some(StepError::EmptySteps));
}

#[test]
fn new_keeps_configuration() {
    let p = ProgressStep::new(vec!["x".to_string()], 0, BLACK, Mode::Vertical).unwrap();
    assert_eq!(p.steps, vec!["x".to_string()]);
    assert_eq!(p.current_step, 0);
    assert_eq!(p.dash_color, BLACK);
    assert_eq!(p.mode, Mode::Vertical);
}

#[test]
fn empty_steps_draw_nothing() {
    let p = indicator(&[], 0, Mode::Horizontal);
    let plan = p.draw();
    assert!(plan.circles.is_empty());
    assert!(plan.labels.is_empty());
    assert!(plan.connectors.is_empty());
}

#[test]
fn marks_count_equals_current_step() {
    let labels = ["a", "b", "c", "d", "e"];
    for current in 0..labels.len() {
        let plan = indicator(&labels, current, Mode::Vertical).draw();
        let checked = plan.labels.iter().filter(|l| l.text.ends_with(" \u{2705}")).count();
        let bold: Vec<usize> = (0..labels.len()).filter(|&i| plan.labels[i].bold).collect();
        assert_eq!(checked, current);
        assert_eq!(bold, vec![current]);
    }
}

#[test]
fn current_past_the_end_checks_all_and_bolds_none() {
    let plan = indicator(&["a", "b"], 7, Mode::Horizontal).draw();
    assert_eq!(
        texts(&plan),
        vec![("a \u{2705}".to_string(), false), ("b \u{2705}".to_string(), false)]
    );
}

#[test]
fn circles_evenly_spaced() {
    let plan = indicator(&["a", "b", "c", "d"], 0, Mode::Horizontal).draw();
    assert_eq!(plan.circles.len(), 4);
    for (i, circle) in plan.circles.iter().enumerate() {
        assert_eq!(circle.radius, 8);
        assert_eq!(circle.center, Point { x: c(2 * i as u128 + 1, 8, 0), y: c(1, 2, 0) });
    }
}

#[test]
fn single_step_has_no_connector() {
    let plan = indicator(&["only"], 0, Mode::Horizontal).draw();
    assert_eq!(plan.circles.len(), 1);
    assert!(plan.connectors.is_empty());
}

#[test]
fn connectors_stop_short_of_circles() {
    let plan = indicator(&["a", "b", "c"], 0, Mode::Horizontal).draw();
    assert_eq!(plan.connectors.len(), 2);
    for (k, conn) in plan.connectors.iter().enumerate() {
        let left = plan.circles[k].center;
        let right = plan.circles[k + 1].center;
        assert_eq!(conn.from.x, Coord { offset: left.x.offset + CIRCLE_RADIUS as i64, ..left.x });
        assert_eq!(conn.to.x, Coord { offset: right.x.offset - CIRCLE_RADIUS as i64, ..right.x });
        assert_eq!(conn.from.y, left.y);
        assert_eq!(conn.to.y, right.y);
    }
    assert_eq!(plan.connectors[0].from, Point { x: c(1, 6, 8), y: c(1, 2, 0) });
    assert_eq!(plan.connectors[0].to, Point { x: c(3, 6, -8), y: c(1, 2, 0) });
}

#[test]
fn orientation_swaps_axes() {
    let p = indicator(&["a", "b", "c"], 2, Mode::Horizontal);
    let h = p.draw_horizontal();
    let v = p.draw_vertical();
    for i in 0..3 {
        let hc = h.circles[i].center;
        assert_eq!(v.circles[i].center, Point { x: hc.y, y: hc.x });
        assert_eq!(v.labels[i].text, h.labels[i].text);
        assert_eq!(v.labels[i].bold, h.labels[i].bold);
        assert_eq!(h.labels[i].position, Point { x: hc.x, y: c(1, 2, -24) });
        assert_eq!(v.labels[i].position, Point { x: c(1, 2, 128), y: hc.x });
    }
    for k in 0..2 {
        let hk = h.connectors[k];
        assert_eq!(v.connectors[k].from, Point { x: hk.from.y, y: hk.from.x });
        assert_eq!(v.connectors[k].to, Point { x: hk.to.y, y: hk.to.x });
    }
}

#[test]
fn draw_follows_mode() {
    let mut p = indicator(&["a", "b"], 0, Mode::Vertical);
    assert_eq!(p.draw().circles, p.draw_vertical().circles);
    p.mode = Mode::Horizontal;
    assert_eq!(p.draw().circles, p.draw_horizontal().circles);
}

#[test]
fn label_for_appends_check_mark() {
    let p = indicator(&["done", "now"], 1, Mode::Horizontal);
    assert_eq!(p.label_for(0), "done \u{2705}");
    assert_eq!(p.label_for(1), "now");
}

#[test]
fn advance_increments_then_wraps() {
    let mut p = indicator(&["a", "b", "c"], 0, Mode::Horizontal);
    p.advance();
    assert_eq!(p.current_step, 1);
    p.advance();
    assert_eq!(p.current_step, 2);
    p.advance();
    assert_eq!(p.current_step, 0);
}

#[test]
fn advance_out_of_range_resets() {
    let mut p = indicator(&["a", "b"], usize::MAX, Mode::Horizontal);
    p.advance();
    assert_eq!(p.current_step, 0);
}

#[test]
fn installer_default_state() {
    let app = NeoraInstaller::default();
    let ps = &app.progress_step;
    assert_eq!(
        ps.steps,
        vec![
            "Copying Windows files",
            "Expanding Windows files",
            "Installing features",
            "Installing updates",
            "Completing installation",
        ]
    );
    assert_eq!(ps.current_step, 0);
    assert_eq!(ps.mode, Mode::Vertical);
    assert_eq!(ps.dash_color, BLACK);
}

#[test]
fn installer_progress_cycles() {
    let mut app = NeoraInstaller::default();
    for expected in [1, 2, 3, 4, 0, 1] {
        app.update(Message::Progress);
        assert_eq!(app.progress_step.current_step, expected);
    }
}
