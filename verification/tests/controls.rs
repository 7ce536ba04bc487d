use atlas::sim::{Command, TimeControl, MAX_SCALE_EXP, MIN_SCALE_EXP};

#[test]
fn starts_running_at_unit_scale() {
    let c = TimeControl::new();
    assert!(!c.paused());
    assert_eq!(c.scale_exp(), 0);
    assert_eq!(c.scale_ratio(), (1, 1));
    assert_eq!(c.substeps(), 4);
    assert_eq!(c.tick_substeps(), Some(4));
}

#[test]
fn pause_stops_ticks_and_resumes() {
    let mut c = TimeControl::new();
    c.apply(Command::TogglePause);
    assert!(c.paused());
    assert_eq!(c.tick_substeps(), None);
    assert_eq!(c.scale_exp(), 0);
    c.apply(Command::TogglePause);
    assert!(!c.paused());
    assert_eq!(c.tick_substeps(), Some(4));
}

#[test]
fn speed_up_doubles_until_sixty_four() {
    let mut c = TimeControl::new();
    let expected = [(2, 1), (4, 1), (8, 1), (16, 1), (32, 1), (64, 1), (64, 1), (64, 1)];
    for r in expected {
        c.apply(Command::SpeedUp);
        assert_eq!(c.scale_ratio(), r);
    }
    assert_eq!(c.scale_exp(), MAX_SCALE_EXP);
}

#[test]
fn slow_down_halves_until_one_eighth() {
    let mut c = TimeControl::new();
    let expected = [(1, 2), (1, 4), (1, 8), (1, 8), (1, 8)];
    for r in expected {
        c.apply(Command::SlowDown);
        assert_eq!(c.scale_ratio(), r);
    }
    assert_eq!(c.scale_exp(), MIN_SCALE_EXP);
}

#[test]
fn substeps_follow_the_scale() {
    let mut c = TimeControl::new();
    // scales 1, 2, 4 -> 4 substeps; 8, 16 -> 8; 32, 64 -> 16
    let expected = [4, 4, 4, 8, 8, 16, 16];
    for (k, n) in expected.iter().enumerate() {
        if k > 0 {
            c.speed_up();
        }
        assert_eq!(c.substeps(), *n);
    }
    for _ in 0..10 {
        c.slow_down();
    }
    assert_eq!(c.substeps(), 4);
}

#[test]
fn speed_up_then_slow_down_restores_scale() {
    let mut c = TimeControl::new();
    c.slow_down();
    c.slow_down();
    c.speed_up();
    c.slow_down();
    assert_eq!(c.scale_ratio(), (1, 4));
}

#[test]
fn pausing_keeps_scale() {
    let mut c = TimeControl::new();
    c.speed_up();
    c.toggle_pause();
    c.speed_up();
    assert!(c.paused());
    assert_eq!(c.scale_ratio(), (4, 1));
    assert_eq!(c.tick_substeps(), None);
}
