use countdown::driver::render_cycle;
use countdown::numerals::{u64_to_dec, u64_to_pad2, u64_to_pad4};
use countdown::{DriverState, PassedTime, TimeSpan};

fn span(millis: i64) -> TimeSpan {
    TimeSpan { millis }
}

fn state(elapsed: i64, target: i64) -> PassedTime {
    PassedTime::new(span(elapsed), span(target))
}

#[test]
fn from_hms_one_hour() {
    let t = TimeSpan::from_hms(1, 0, 0).unwrap();
    assert_eq!(t.millis, 3_600_000);
}

#[test]
fn from_hms_mixed() {
    let t = TimeSpan::from_hms(2, 30, 15).unwrap();
    assert_eq!(t.millis, 2 * 3_600_000 + 30 * 60_000 + 15 * 1_000);
}

#[test]
fn from_hms_overflow_is_rejected() {
    assert!(TimeSpan::from_hms(u64::MAX, 0, 0).is_none());
    assert!(TimeSpan::from_hms(0, u64::MAX, 0).is_none());
}

#[test]
fn decimal_formatting() {
    assert_eq!(u64_to_dec(0), "0");
    assert_eq!(u64_to_dec(7), "7");
    assert_eq!(u64_to_dec(105), "105");
    assert_eq!(u64_to_pad2(3), "03");
    assert_eq!(u64_to_pad2(42), "42");
    assert_eq!(u64_to_pad2(360), "360");
    assert_eq!(u64_to_pad4(0), "0000");
    assert_eq!(u64_to_pad4(57), "0057");
    assert_eq!(u64_to_pad4(5000), "5000");
}

#[test]
fn within_target_no_overshoot() {
    let p = state(1_000, 5_000);
    assert!(!p.overshoot);
    assert!(p.milli >= 0);
    let q = state(5_000, 5_000);
    assert!(!q.overshoot);
    assert_eq!(q.milli, 0);
}

#[test]
fn overshoot_sets_flag_and_sign() {
    let p = state(6_000, 5_000);
    assert!(p.overshoot);
    assert!(p.milli < 0);
    assert_eq!(p.format_passed(), "100% 1.2000 | -00:00:01.0");
}

#[test]
fn ratio_endpoints() {
    let start = state(0, 3_600_000);
    assert_eq!(start.format_passed(), "0% 0.0000 |  01:00:00.0");
    let done = state(3_600_000, 3_600_000);
    assert_eq!(done.format_passed(), "100% 1.0000 |  00:00:00.0");
}

#[test]
fn zero_target_is_rendered_not_crashed() {
    let inf = state(5_000, 0);
    assert_eq!(inf.format_passed(), "100% inf | -00:00:05.0");
    let nan = state(0, 0);
    assert_eq!(nan.format_passed(), "100% NaN |  00:00:00.0");
    // The full line still comes out well formed for either non-finite ratio.
    let line = inf.format_term(40);
    assert!(line.starts_with('\r'));
    let line = nan.format_term(40);
    assert!(line.starts_with('\r'));
}

#[test]
fn halfway_textual_segment() {
    let p = state(1_800_000, 3_600_000);
    assert_eq!(p.format_passed(), "50% 0.5000 |  00:30:00.0");
}

#[test]
fn halfway_bar() {
    let p = state(1_800_000, 3_600_000);
    // Inner width 13, floor(0.5 * 13) = 6 filled cells.
    assert_eq!(p.format_progress(15), "[======>      ]");
}

#[test]
fn halfway_full_line_width_40() {
    let p = state(1_800_000, 3_600_000);
    let line = p.format_term(40);
    assert_eq!(line, "\r50% 0.5000 |  00:30:00.0 [======>      ]");
}

#[test]
fn narrow_terminal_gives_empty_bar() {
    let p = state(1_800_000, 3_600_000);
    assert_eq!(p.format_progress(0), "");
    assert_eq!(p.format_progress(1), "");
    assert_eq!(p.format_progress(2), "[]");
    // Textual segment is 24 columns; below 27 no bar fits.
    let line = p.format_term(26);
    assert_eq!(line, "\r50% 0.5000 |  00:30:00.0 ");
    let line = p.format_term(0);
    assert_eq!(line, "\r50% 0.5000 |  00:30:00.0 ");
}

#[test]
fn overfull_bar_saturates() {
    let p = state(10_000, 5_000);
    // Ratio 2.0: the fill count is clamped to the inner width, no marker.
    assert_eq!(p.format_progress(10), "[========]");
}

#[test]
fn nan_bar_is_empty_inf_bar_is_full() {
    assert_eq!(state(0, 0).format_progress(6), "[>   ]");
    assert_eq!(state(9_000, 0).format_progress(6), "[====]");
}

#[test]
fn compute_is_pure() {
    let a = state(123_456, 789_000);
    let b = state(123_456, 789_000);
    assert_eq!(a, b);
}

#[test]
fn hours_grow_past_two_digits() {
    // 360 hours remain: the hour field widens instead of wrapping.
    let p = state(0, 360 * 3_600_000);
    assert_eq!(p.format_passed(), "0% 0.0000 |  360:00:00.0");
}

#[test]
fn emphasized_line_wraps_bar_or_leaves_it_plain() {
    let p = state(5_000, 5_000);
    let line = p.format_term(40);
    // Textual segment is 25 columns, so the bar's inner width is 12 and
    // a ratio of exactly 1 fills it completely.
    let plain = "\r100% 1.0000 |  00:00:00.0 [============]";
    let styled = "\r100% 1.0000 |  00:00:00.0 \u{1b}[41m[============]\u{1b}[0m";
    assert!(line == plain || line == styled);
}

#[test]
fn driver_step_stops_only_on_cancel() {
    assert_eq!(DriverState::Running.step(false), DriverState::Running);
    assert_eq!(DriverState::Running.step(true), DriverState::Stopped);
    assert_eq!(DriverState::Stopped.step(false), DriverState::Stopped);
    assert_eq!(DriverState::Stopped.step(true), DriverState::Stopped);
}

#[test]
fn render_cycle_matches_snapshot_formatting() {
    let line = render_cycle(span(1_800_000), span(3_600_000), 40);
    assert_eq!(line, "\r50% 0.5000 |  00:30:00.0 [======>      ]");
}
