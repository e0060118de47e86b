use netspeed::engine::{Config, ConfigError, Engine};

fn icon_strings(glyphs: &[&str]) -> Vec<String> {
    glyphs.iter().map(|g| g.to_string()).collect()
}

fn base_config() -> Config {
    Config {
        nrefresh: 1,
        refresh_interval_ms: 1000,
        combine_icons: false,
        animated_icons: false,
        lin_coeff: 1,
        log_coeff: 0,
        icons: icon_strings(&["a", "b", "c", "d"]),
        up_icon: "↑".to_string(),
        down_icon: "↓".to_string(),
        bin_size: 2048,
    }
}

#[test]
fn empty_icon_list_is_rejected_before_the_loop() {
    let mut cfg = base_config();
    cfg.icons = icon_strings(&[]);
    match Engine::new(cfg) {
        Err(e) => assert_eq!(e, ConfigError::EmptyIconList),
        Ok(_) => panic!("an empty icon list must be rejected"),
    }
}

#[test]
fn zero_cadence_is_rejected_before_the_loop() {
    let mut cfg = base_config();
    cfg.nrefresh = 0;
    match Engine::new(cfg) {
        Err(e) => assert_eq!(e, ConfigError::ZeroRefreshCadence),
        Ok(_) => panic!("a zero sampling cadence must be rejected"),
    }
}

#[test]
fn single_icon_list_is_accepted() {
    let mut cfg = base_config();
    cfg.icons = icon_strings(&["█"]);
    assert!(Engine::new(cfg).is_ok());
}

#[test]
fn fresh_engine_state() {
    let engine = Engine::new(base_config()).unwrap();
    assert_eq!(engine.speed_up, 0);
    assert_eq!(engine.speed_down, 0);
    assert_eq!(engine.phase_up, 0);
    assert_eq!(engine.phase_down, 0);
    assert_eq!(engine.delay_ns, 1_000_000_000);
    assert!(engine.sample_due());
}

#[test]
fn sampling_cadence_every_third_frame() {
    let mut cfg = base_config();
    cfg.nrefresh = 3;
    let mut engine = Engine::new(cfg).unwrap();
    let mut due = Vec::new();
    for _ in 0..7 {
        if engine.sample_due() {
            engine.record_sample(0, 0, 1000);
        }
        due.push(engine.sample_due());
        engine.frame(1_000_000);
    }
    // the first sample is due on the second frame, then every third
    assert_eq!(due, vec![false, true, false, false, true, false, false]);
}

#[test]
fn zero_elapsed_keeps_previous_speed() {
    let mut engine = Engine::new(base_config()).unwrap();
    engine.record_sample(8_000_000, 2_000_000, 1000);
    assert_eq!(engine.speed_up, 8_000_000);
    assert_eq!(engine.speed_down, 2_000_000);
    engine.record_sample(999_999, 999_999, 0);
    assert_eq!(engine.speed_up, 8_000_000);
    assert_eq!(engine.speed_down, 2_000_000);
}

#[test]
fn constant_megabytes_render_as_megabits() {
    // 8,000,000 bytes/s transmitted over one second reads 64.0 Mb/s up
    let mut engine = Engine::new(base_config()).unwrap();
    assert!(engine.sample_due());
    engine.record_sample(8_000_000, 0, 1000);
    let (line, _) = engine.frame(1_000_000_000);
    assert!(line.contains("64.0 Mb/s"));
}

#[test]
fn idle_static_lines_are_identical() {
    let mut engine = Engine::new(base_config()).unwrap();
    let expected = format!("{} {:>10} {} {:>10}", "↑", "0 b/s", "↓", "0 b/s");
    let mut lines = Vec::new();
    for _ in 0..3 {
        engine.record_sample(0, 0, 1000);
        let (line, delay) = engine.frame(1_000_000_000);
        assert_eq!(delay, 1_000_000_000);
        lines.push(line);
    }
    for line in &lines {
        assert_eq!(line, &expected);
    }
}

#[test]
fn half_step_advance_walks_the_icon_list() {
    let mut cfg = base_config();
    cfg.animated_icons = true;
    let mut engine = Engine::new(cfg).unwrap();
    // one phase unit per second per byte/s at half a step per second
    engine.record_sample(500_000_000, 500_000_000, 1000);
    // forward indices 0, 1, 1, 2; reverse indices 3, 2, 2, 1
    let expected_glyphs = [("d", "a"), ("c", "b"), ("c", "b"), ("b", "c")];
    let mut phases = Vec::new();
    for (up, down) in expected_glyphs {
        let (line, delay) = engine.frame(1_000_000_000);
        // half a step per frame sits in the hysteresis band
        assert_eq!(delay, 1_000_000_000);
        phases.push(engine.phase_down);
        let expected = format!("{} {:>10} {} {:>10}", up, "4.0 Gb/s", down, "4.0 Gb/s");
        assert_eq!(line, expected);
    }
    // phase sequence 0.5, 1.0, 1.5, 2.0 in icon steps
    assert_eq!(
        phases,
        vec![500_000_000, 1_000_000_000, 1_500_000_000, 2_000_000_000]
    );
}

#[test]
fn fast_animation_shrinks_the_delay() {
    let mut cfg = base_config();
    cfg.animated_icons = true;
    let mut engine = Engine::new(cfg).unwrap();
    // four icon steps per second: four steps per one-second frame
    engine.record_sample(4_000_000_000, 0, 1000);
    let (_, delay) = engine.frame(1_000_000_000);
    assert_eq!(delay, 250_000_000);
}

#[test]
fn nearly_static_animation_restores_the_base_delay() {
    let mut cfg = base_config();
    cfg.animated_icons = true;
    let mut engine = Engine::new(cfg).unwrap();
    engine.record_sample(4_000_000_000, 0, 1000);
    engine.frame(1_000_000_000);
    engine.record_sample(0, 0, 1000);
    let (_, delay) = engine.frame(1_000_000_000);
    assert_eq!(delay, 1_000_000_000);
}

#[test]
fn combined_icons_prefix_the_static_glyph() {
    let mut cfg = base_config();
    cfg.animated_icons = true;
    cfg.combine_icons = true;
    let mut engine = Engine::new(cfg).unwrap();
    // zero speed keeps the phases at zero
    let (line, _) = engine.frame(1_000_000_000);
    let expected = format!("{} {:>10} {} {:>10}", "↑d", "0 b/s", "↓a", "0 b/s");
    assert_eq!(line, expected);
}

#[test]
fn static_icons_render_without_animation() {
    let mut engine = Engine::new(base_config()).unwrap();
    engine.record_sample(125, 124, 1000);
    let (line, _) = engine.frame(1_000_000_000);
    let expected = format!("{} {:>10} {} {:>10}", "↑", "1.0 kb/s", "↓", "992 b/s");
    assert_eq!(line, expected);
}
