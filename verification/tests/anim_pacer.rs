use netspeed::anim::{advance_phase, compute_advance, icon_index, PHASE_SCALE};
use netspeed::pacer::next_delay;
use netspeed::speed::estimate_speed;

#[test]
fn advance_linear_term() {
    // one phase unit per second per byte/s, over exactly one second
    assert_eq!(compute_advance(1, 0, 500_000_000, 1_000_000_000), 500_000_000);
}

#[test]
fn advance_log_term() {
    // ilog10(999 + 1) == 3
    assert_eq!(compute_advance(0, 1000, 999, 1_000_000_000), 3000);
}

#[test]
fn advance_scales_with_frame_duration() {
    let one_second = compute_advance(7, 0, 1_000_000, 1_000_000_000);
    let half_second = compute_advance(7, 0, 1_000_000, 500_000_000);
    assert_eq!(one_second, 7_000_000);
    assert_eq!(half_second, 3_500_000);
}

#[test]
fn advance_zero_speed_zero_coefficients() {
    assert_eq!(compute_advance(0, 0, 0, 1_000_000_000), 0);
    // ilog10(0 + 1) == 0, so a zero-speed frame never advances
    assert_eq!(compute_advance(0, 1_000_000, 0, 1_000_000_000), 0);
}

#[test]
fn advance_saturates() {
    assert_eq!(compute_advance(u64::MAX, 0, u64::MAX, u64::MAX), u64::MAX);
}

#[test]
fn phase_wraps_modulo_icon_count() {
    assert_eq!(advance_phase(3_800_000_000, 500_000_000, 4), 300_000_000);
    assert_eq!(advance_phase(0, 500_000_000, 4), 500_000_000);
    // a single icon wraps every whole step
    assert_eq!(advance_phase(900_000_000, 200_000_000, 1), 100_000_000);
}

#[test]
fn icon_index_is_whole_steps() {
    assert_eq!(icon_index(0, 4), 0);
    assert_eq!(icon_index(999_999_999, 4), 0);
    assert_eq!(icon_index(1_000_000_000, 4), 1);
    assert_eq!(icon_index(3_999_999_999, 4), 3);
}

#[test]
fn pacer_shrinks_when_advance_exceeds_one_step() {
    // advance of two steps per frame halves the delay
    assert_eq!(next_delay(1_000_000_000, 2 * PHASE_SCALE, 0, 777), 500_000_000);
    // the larger of the two directions governs
    assert_eq!(next_delay(1_000_000_000, 0, 4 * PHASE_SCALE, 777), 250_000_000);
}

#[test]
fn pacer_restores_base_when_nearly_static() {
    let low = PHASE_SCALE / 10 - 1;
    assert_eq!(next_delay(123, low, low, 777), 777);
    assert_eq!(next_delay(123, 0, 0, 777), 777);
}

#[test]
fn pacer_holds_delay_in_hysteresis_band() {
    // one direction inside the band: delay unchanged
    assert_eq!(next_delay(123, PHASE_SCALE / 10, 0, 777), 123);
    assert_eq!(next_delay(123, PHASE_SCALE, PHASE_SCALE, 777), 123);
}

#[test]
fn estimator_divides_bytes_by_elapsed() {
    assert_eq!(estimate_speed(5, 8_000_000, 1000), 8_000_000);
    assert_eq!(estimate_speed(5, 1500, 3000), 500);
}

#[test]
fn estimator_keeps_previous_speed_on_zero_elapsed() {
    assert_eq!(estimate_speed(42, 999_999, 0), 42);
    assert_eq!(estimate_speed(0, 123, 0), 0);
}

#[test]
fn estimator_saturates() {
    assert_eq!(estimate_speed(5, u64::MAX, 1), u64::MAX);
}
