use dsp_props::PropInfo;
use std::cell::RefCell;
use std::rc::Rc;

struct Filter {
    recomputed: u32,
    dirty: bool,
}

type Curve = Box<dyn Fn(f64) -> f64>;
type Hook = Box<dyn Fn(&mut Filter)>;
type Control = PropInfo<'static, f64, Filter, Curve, Curve, Hook>;

fn linear_to(min: f64, max: f64) -> Curve {
    Box::new(move |value| (value - min) / (max - min))
}

fn linear_from(min: f64, max: f64) -> Curve {
    Box::new(move |norm| min + norm * (max - min))
}

fn recompute() -> Hook {
    Box::new(|filter: &mut Filter| {
        filter.recomputed += 1;
        filter.dirty = true;
    })
}

fn cutoff() -> Control {
    PropInfo::new(
        1,
        20.0,
        20000.0,
        1000.0,
        "Cutoff",
        "Hz",
        linear_to(20.0, 20000.0),
        linear_from(20.0, 20000.0),
        recompute(),
    )
}

#[test]
fn new_control_holds_its_default() {
    let control = cutoff();
    assert_eq!(control.get_value(), 1000.0);
    assert_eq!(control.get_norm_value(), (1000.0 - 20.0) / (20000.0 - 20.0));
}

#[test]
fn new_control_does_not_run_the_callback() {
    let calls = Rc::new(RefCell::new(0u32));
    let seen = calls.clone();
    let hook: Hook = Box::new(move |_filter: &mut Filter| {
        *seen.borrow_mut() += 1;
    });
    let control: Control = PropInfo::new(
        3,
        0.0,
        1.0,
        0.5,
        "Mix",
        "",
        linear_to(0.0, 1.0),
        linear_from(0.0, 1.0),
        hook,
    );
    assert_eq!(control.get_value(), 0.5);
    assert_eq!(*calls.borrow(), 0);
}

#[test]
fn captions_are_copied_out() {
    let control = cutoff();
    assert_eq!(control.get_caption(), String::from("Cutoff"));
    assert_eq!(control.get_measure(), String::from("Hz"));
    let mut caption = control.get_caption();
    caption.push_str(" (changed)");
    assert_eq!(control.get_caption(), String::from("Cutoff"));
}

#[test]
fn set_from_norm_updates_both_values() {
    let mut control = cutoff();
    let mut filter = Filter { recomputed: 0, dirty: false };
    control.set_from_norm(0.25, &mut filter);
    assert_eq!(control.get_norm_value(), 0.25);
    assert_eq!(control.get_value(), 20.0 + 0.25 * (20000.0 - 20.0));
    assert_eq!(control.get_value(), 5015.0);
}

#[test]
fn set_from_norm_reaches_both_ends_of_the_range() {
    let mut control = cutoff();
    let mut filter = Filter { recomputed: 0, dirty: false };
    control.set_from_norm(0.0, &mut filter);
    assert_eq!(control.get_value(), 20.0);
    assert_eq!(control.get_norm_value(), 0.0);
    control.set_from_norm(1.0, &mut filter);
    assert_eq!(control.get_value(), 20000.0);
    assert_eq!(control.get_norm_value(), 1.0);
}

#[test]
fn set_from_norm_does_not_clamp() {
    let mut control = cutoff();
    let mut filter = Filter { recomputed: 0, dirty: false };
    control.set_from_norm(2.0, &mut filter);
    assert_eq!(control.get_norm_value(), 2.0);
    assert_eq!(control.get_value(), 39980.0);
    control.set_from_norm(-1.0, &mut filter);
    assert_eq!(control.get_norm_value(), -1.0);
    assert_eq!(control.get_value(), -19960.0);
}

#[test]
fn set_from_norm_runs_the_callback_once() {
    let mut control = cutoff();
    let mut filter = Filter { recomputed: 0, dirty: false };
    control.set_from_norm(0.5, &mut filter);
    assert_eq!(filter.recomputed, 1);
    assert!(filter.dirty);
    control.set_from_norm(0.75, &mut filter);
    assert_eq!(filter.recomputed, 2);
}

#[test]
fn callback_runs_after_the_conversion() {
    let log = Rc::new(RefCell::new(Vec::new()));
    let from_log = log.clone();
    let hook_log = log.clone();
    let from: Curve = Box::new(move |norm| {
        from_log.borrow_mut().push("from_normal");
        norm * 10.0
    });
    let hook: Hook = Box::new(move |filter: &mut Filter| {
        hook_log.borrow_mut().push("callback");
        filter.dirty = true;
    });
    let mut control: Control =
        PropInfo::new(7, 0.0, 10.0, 5.0, "Gain", "dB", linear_to(0.0, 10.0), from, hook);
    let mut filter = Filter { recomputed: 0, dirty: false };
    control.set_from_norm(0.5, &mut filter);
    assert_eq!(*log.borrow(), vec!["from_normal", "callback"]);
    assert_eq!(control.get_value(), 5.0);
    assert!(filter.dirty);
}

#[test]
fn callback_gets_the_processor_it_was_given() {
    let mut control = cutoff();
    let mut first = Filter { recomputed: 10, dirty: false };
    let mut second = Filter { recomputed: 20, dirty: false };
    control.set_from_norm(0.5, &mut second);
    assert_eq!(first.recomputed, 10);
    assert!(!first.dirty);
    assert_eq!(second.recomputed, 21);
    assert!(second.dirty);
    control.set_from_norm(0.5, &mut first);
    assert_eq!(first.recomputed, 11);
    assert_eq!(second.recomputed, 21);
}

#[test]
fn conversion_round_trip_is_close() {
    let mut control = cutoff();
    let mut filter = Filter { recomputed: 0, dirty: false };
    let norm = control.get_norm_value();
    control.set_from_norm(norm, &mut filter);
    assert!((control.get_value() - 1000.0).abs() < 1e-9);
    assert_eq!(control.get_norm_value(), norm);
}

#[test]
fn values_need_not_be_floats() {
    let mut control: PropInfo<'static, i64, u8, fn(i64) -> i64, fn(i64) -> i64, fn(&mut u8)> =
        PropInfo::new(
            2,
            0,
            200,
            100,
            "Steps",
            "",
            |value| value / 2,
            |norm| norm * 2,
            |count| *count += 1,
        );
    let mut count: u8 = 0;
    assert_eq!(control.get_value(), 100);
    assert_eq!(control.get_norm_value(), 50);
    control.set_from_norm(30, &mut count);
    assert_eq!(control.get_value(), 60);
    assert_eq!(control.get_norm_value(), 30);
    assert_eq!(count, 1);
}
