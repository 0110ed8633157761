use whackamole::mole::{
    Mole, MoleLight, MoleStatus, Tick, DEFAULT_ESCAPE_WINDOW_MS, DEFAULT_SPAWN_INTERVAL_MS,
    SLOT_COUNT,
};

fn active_count(m: &Mole) -> usize {
    (0..SLOT_COUNT)
        .filter(|&i| m.activation_time(i).is_some())
        .count()
}

#[test]
fn fresh_engine_defaults() {
    let m = Mole::with_seed(1);
    assert_eq!(m.score(), 0);
    assert_eq!(m.lives(), 5);
    assert_eq!(m.hits_this_round(), 0);
    assert_eq!(m.round_num(), 1);
    assert_eq!(m.spawn_interval_ms(), 3000);
    assert_eq!(m.escape_window_ms(), 4000);
    assert_eq!(m.spawn_timer(), 0);
    assert_eq!(m.last_frame_time(), 0);
    assert_eq!(active_count(&m), 0);
    let e = Mole::new().expect("system entropy");
    assert_eq!(e.lives(), 5);
    assert_eq!(active_count(&e), 0);
}

#[test]
fn status_classifies_by_window() {
    let mut m = Mole::with_seed(2);
    assert_eq!(m.get_mole_status(4, 0), MoleStatus::Inactive);
    m.spawn_mole(4, 100);
    assert_eq!(m.get_mole_status(4, 100), MoleStatus::Active);
    assert_eq!(m.get_mole_status(4, 4100), MoleStatus::Active);
    assert_eq!(m.get_mole_status(4, 4101), MoleStatus::Escaped);
    assert_eq!(m.get_mole_status(4, 50), MoleStatus::Active);
}

#[test]
fn status_is_repeatable() {
    let mut m = Mole::with_seed(3);
    m.spawn_mole(1, 10);
    let first = m.get_mole_status(1, 5000);
    let second = m.get_mole_status(1, 5000);
    assert_eq!(first, second);
    assert_eq!(first, MoleStatus::Escaped);
    assert_eq!(m.activation_time(1), Some(10));
    assert_eq!(m.lives(), 5);
}

#[test]
fn escape_after_window_costs_a_life() {
    let mut m = Mole::with_seed(4);
    m.spawn_mole(2, 0);
    m.check_for_mole_escapes(4000);
    assert_eq!(m.activation_time(2), Some(0));
    assert_eq!(m.lives(), 5);
    m.check_for_mole_escapes(4001);
    assert_eq!(m.activation_time(2), None);
    assert_eq!(m.lives(), 4);
}

#[test]
fn escape_in_a_tick_costs_a_life() {
    let mut m = Mole::with_seed(5);
    m.spawn_mole(2, 0);
    m.begin(4000);
    let t = m.tick(4001, None);
    assert!(matches!(t, Tick::Continue { .. }));
    assert_eq!(m.activation_time(2), None);
    assert_eq!(m.lives(), 4);
    assert_eq!(m.score(), 0);
}

#[test]
fn hit_on_active_slot_scores() {
    let mut m = Mole::with_seed(6);
    m.spawn_mole(5, 0);
    m.check_for_mole_hits(Some('5'), 1000);
    assert_eq!(m.score(), 1);
    assert_eq!(m.hits_this_round(), 1);
    assert_eq!(m.activation_time(5), None);
    assert_eq!(m.lives(), 5);
}

#[test]
fn hit_in_a_tick_scores() {
    let mut m = Mole::with_seed(7);
    m.spawn_mole(5, 0);
    m.begin(1000);
    let t = m.tick(1000, Some('5'));
    assert!(matches!(t, Tick::Continue { .. }));
    assert_eq!(m.score(), 1);
    assert_eq!(m.get_mole_status(5, 1000), MoleStatus::Inactive);
    assert_eq!(m.lives(), 5);
}

#[test]
fn other_keys_change_nothing() {
    let mut m = Mole::with_seed(8);
    m.spawn_mole(3, 0);
    m.check_for_mole_hits(None, 10);
    m.check_for_mole_hits(Some('4'), 10);
    m.check_for_mole_hits(Some('9'), 10);
    m.check_for_mole_hits(Some('#'), 10);
    m.check_for_mole_hits(Some('3'), 4500);
    assert_eq!(m.score(), 0);
    assert_eq!(m.hits_this_round(), 0);
    assert_eq!(m.activation_time(3), Some(0));
}

#[test]
fn escaped_slot_cannot_be_hit_in_same_tick() {
    let mut m = Mole::with_seed(9);
    m.spawn_mole(6, 0);
    m.begin(5000);
    let t = m.tick(5000, Some('6'));
    assert!(matches!(t, Tick::Continue { .. }));
    assert_eq!(m.score(), 0);
    assert_eq!(m.lives(), 4);
    assert_eq!(m.activation_time(6), None);
}

#[test]
fn full_grid_spawn_only_moves_timer() {
    let mut m = Mole::with_seed(10);
    for i in 0..SLOT_COUNT {
        m.spawn_mole(i, 0);
    }
    m.maybe_spawn(3001);
    assert_eq!(m.spawn_timer(), 3001);
    for i in 0..SLOT_COUNT {
        assert_eq!(m.activation_time(i), Some(0));
    }
}

#[test]
fn spawn_waits_for_interval() {
    let mut m = Mole::with_seed(11);
    m.maybe_spawn(DEFAULT_SPAWN_INTERVAL_MS);
    assert_eq!(active_count(&m), 0);
    assert_eq!(m.spawn_timer(), 0);
    m.maybe_spawn(DEFAULT_SPAWN_INTERVAL_MS + 1);
    assert_eq!(active_count(&m), 1);
    assert_eq!(m.spawn_timer(), 3001);
    m.maybe_spawn(6001);
    assert_eq!(active_count(&m), 1);
    m.maybe_spawn(6002);
    assert_eq!(active_count(&m), 2);
}

#[test]
fn random_spawn_fills_only_free_slots() {
    let mut m = Mole::with_seed(12);
    for i in 0..SLOT_COUNT {
        if i != 7 {
            m.spawn_mole(i, 1);
        }
    }
    m.spawn_random_mole(50);
    assert_eq!(m.activation_time(7), Some(50));
    for i in 0..SLOT_COUNT {
        if i != 7 {
            assert_eq!(m.activation_time(i), Some(1));
        }
    }
}

#[test]
fn seeded_spawns_repeat() {
    let mut a = Mole::with_seed(99);
    let mut b = Mole::with_seed(99);
    for k in 0..5u128 {
        a.spawn_random_mole(10 + k);
        b.spawn_random_mole(10 + k);
    }
    for i in 0..SLOT_COUNT {
        assert_eq!(a.activation_time(i), b.activation_time(i));
    }
    assert_eq!(active_count(&a), 5);
}

#[test]
fn inactive_slots_lists_free_ones() {
    let mut m = Mole::with_seed(13);
    m.spawn_mole(0, 5);
    m.spawn_mole(8, 5);
    assert_eq!(m.inactive_slots(), vec![1, 2, 3, 4, 5, 6, 7]);
    m.spawn_mole(4, 5);
    assert_eq!(m.inactive_slots(), vec![1, 2, 3, 5, 6, 7]);
}

#[test]
fn spawn_mole_keeps_running_mole() {
    let mut m = Mole::with_seed(14);
    m.spawn_mole(4, 10);
    m.spawn_mole(4, 20);
    assert_eq!(m.activation_time(4), Some(10));
}

#[test]
fn lives_run_out_ends_game() {
    let mut m = Mole::with_seed(15);
    m.spawn_mole(0, 0);
    m.check_for_mole_hits(Some('0'), 10);
    for i in 1..6 {
        m.spawn_mole(i, 100);
    }
    m.begin(5000);
    let t = m.tick(4101, None);
    match t {
        Tick::Over { score } => assert_eq!(score, 1),
        Tick::Continue { .. } => panic!("game should be over"),
    }
    assert_eq!(m.lives(), 0);
    assert_eq!(m.hits_this_round(), 1);
    assert_eq!(m.score(), 1);
}

#[test]
fn lives_clamp_at_zero() {
    let mut m = Mole::with_seed(16);
    for i in 0..SLOT_COUNT {
        m.spawn_mole(i, 0);
    }
    m.check_for_mole_escapes(9000);
    assert_eq!(m.lives(), 0);
    assert_eq!(active_count(&m), 0);
}

#[test]
fn tenth_hit_closes_round() {
    let mut m = Mole::with_seed(17);
    m.begin(1_000_000);
    for k in 0..10u128 {
        let slot = (k % 9) as usize;
        m.spawn_mole(slot, 100 + k);
        let key = char::from_digit(slot as u32, 10);
        let t = m.tick(200 + k, key);
        assert!(matches!(t, Tick::Continue { .. }));
        if k < 9 {
            assert_eq!(m.hits_this_round(), (k + 1) as u8);
        }
    }
    assert_eq!(m.score(), 10);
    assert_eq!(m.hits_this_round(), 0);
    assert_eq!(m.spawn_interval_ms(), 2700);
    assert_eq!(m.escape_window_ms(), DEFAULT_ESCAPE_WINDOW_MS);
    assert_eq!(m.lives(), 6);
    assert_eq!(m.round_num(), 2);
}

#[test]
fn next_round_scales_difficulty() {
    let mut m = Mole::with_seed(18);
    m.start_next_round();
    assert_eq!(m.spawn_interval_ms(), 2700);
    m.start_next_round();
    assert_eq!(m.spawn_interval_ms(), 2430);
    assert_eq!(m.escape_window_ms(), 4000);
    assert_eq!(m.lives(), 7);
    assert_eq!(m.round_num(), 3);
}

#[test]
fn frames_are_gated() {
    let mut m = Mole::with_seed(19);
    assert!(m.render_moles(5).is_none());
    assert_eq!(m.last_frame_time(), 0);
    assert!(m.render_moles(10).is_some());
    assert_eq!(m.last_frame_time(), 10);
    assert!(m.render_moles(19).is_none());
    assert_eq!(m.last_frame_time(), 10);
    assert!(m.render_moles(20).is_some());
    assert_eq!(m.last_frame_time(), 20);
}

#[test]
fn frame_shows_progress_of_active_moles() {
    let mut m = Mole::with_seed(20);
    m.spawn_mole(3, 0);
    m.spawn_mole(7, 0);
    let frame = m.render_moles(4500).unwrap();
    assert_eq!(frame.len(), SLOT_COUNT);
    assert_eq!(frame[7], MoleLight::Off);
    let mut m2 = Mole::with_seed(21);
    m2.spawn_mole(3, 0);
    let frame = m2.render_moles(1000).unwrap();
    for (i, light) in frame.iter().enumerate() {
        if i == 3 {
            assert_eq!(
                *light,
                MoleLight::Lit {
                    elapsed_ms: 1000,
                    window_ms: 4000
                }
            );
        } else {
            assert_eq!(*light, MoleLight::Off);
        }
    }
}

#[test]
fn reset_restores_defaults() {
    let mut m = Mole::with_seed(22);
    m.spawn_mole(1, 0);
    m.check_for_mole_hits(Some('1'), 5);
    m.spawn_mole(2, 0);
    m.start_next_round();
    m.check_for_mole_escapes(10_000);
    m.render_moles(10_000);
    m.mole_game_reset();
    assert_eq!(m.score(), 0);
    assert_eq!(m.lives(), 5);
    assert_eq!(m.hits_this_round(), 0);
    assert_eq!(m.round_num(), 1);
    assert_eq!(m.spawn_interval_ms(), 3000);
    assert_eq!(m.escape_window_ms(), 4000);
    assert_eq!(m.spawn_timer(), 0);
    assert_eq!(m.last_frame_time(), 10_000);
    assert_eq!(active_count(&m), 0);
}

#[test]
fn score_never_drops_over_ticks() {
    let mut m = Mole::with_seed(23);
    let mut last = 0;
    let mut now: u128 = 0;
    for k in 0..200u32 {
        now += 37;
        let key = char::from_digit(k % 11, 10);
        if let Tick::Over { score } = m.tick(now, key) {
            assert!(score >= last);
            break;
        }
        assert!(m.score() >= last);
        last = m.score();
    }
}
