use energy_mc::{EnergyMC, EnergyMCParams, Method, MethodParams, WeightUpdate};

fn sad(e0: i64) -> EnergyMC<f64> {
    EnergyMC::from_params(
        EnergyMCParams { method: MethodParams::Sad { min_t: 0.2 }, seed: Some(1) },
        e0,
        Some(1),
        0.0,
    )
}

fn window(mc: &EnergyMC<f64>) -> (i64, i64, i64, u64, u64) {
    match mc.method {
        Method::Sad { too_lo, too_hi, min_important_energy, t_l, n_found, .. } => {
            (too_lo, too_hi, min_important_energy, t_l, n_found)
        }
        Method::Samc { .. } => panic!("not SAD"),
    }
}

#[test]
fn sad_starts_collapsed() {
    let mc = sad(-4);
    assert_eq!(window(&mc), (-4, -4, -4, 0, 1));
    match mc.method {
        Method::Sad { min_t, .. } => assert_eq!(min_t, 0.2),
        Method::Samc { .. } => panic!("not SAD"),
    }
}

#[test]
fn moves_and_rejections_count() {
    let mut mc = sad(0);
    for k in 1..=5u64 {
        mc.begin_move();
        assert_eq!(mc.moves, k);
        if k % 2 == 0 {
            mc.count_rejection();
        }
        assert!(mc.rejected_moves <= mc.moves);
    }
    assert_eq!(mc.rejected_moves, 2);
}

#[test]
fn reject_only_when_both_hold() {
    let mut mc = sad(0);
    mc.begin_move();
    mc.prepare_for_energy(0, 0.0);
    assert!(mc.reject_move(0, true, true));
    assert!(!mc.reject_move(0, true, false));
    assert!(!mc.reject_move(0, false, true));
    assert!(!mc.reject_move(0, false, false));
    // bin 0 was visited at the start: nothing is discovered
    assert_eq!(window(&mc), (0, 0, 0, 0, 1));
}

#[test]
fn first_visit_is_counted_once() {
    let mut mc = sad(0);
    mc.begin_move();
    mc.prepare_for_energy(1, 0.0);
    assert!(!mc.reject_move(1, false, false));
    assert_eq!(window(&mc), (0, 0, 0, 1, 2));
    mc.record_visit(1);
    mc.begin_move();
    assert!(!mc.reject_move(1, false, false));
    assert_eq!(window(&mc), (0, 0, 0, 1, 2));
    // a rejected move into a new bin discovers nothing
    mc.begin_move();
    mc.prepare_for_energy(2, 0.0);
    assert!(mc.reject_move(2, true, true));
    assert_eq!(window(&mc), (0, 0, 0, 1, 2));
    // an accepted one does, at the current move
    mc.begin_move();
    assert!(!mc.reject_move(2, false, true));
    assert_eq!(window(&mc), (0, 0, 0, 4, 3));
}

#[test]
fn samc_never_discovers() {
    let mut mc: EnergyMC<f64> = EnergyMC::from_params(
        EnergyMCParams { method: MethodParams::Samc { t0: 3 }, seed: None },
        0,
        None,
        0.0,
    );
    mc.begin_move();
    mc.prepare_for_energy(5, 0.0);
    assert!(!mc.reject_move(5, false, false));
    match mc.method {
        Method::Samc { t0 } => assert_eq!(t0, 3),
        Method::Sad { .. } => panic!("not SAMC"),
    }
}

#[test]
fn window_grows_up_and_down() {
    let mut mc = sad(0);
    mc.prepare_for_energy(-5, 0.0);
    mc.prepare_for_energy(5, 0.0);
    mc.update_window(3, true, false);
    assert_eq!(window(&mc), (0, 3, 0, 0, 1));
    // above the largest weight but not above the upper edge
    mc.update_window(2, true, false);
    assert_eq!(window(&mc), (0, 3, 0, 0, 1));
    mc.update_window(-2, false, true);
    assert_eq!(window(&mc), (-2, 3, -2, 0, 1));
    // important, but above the lower edge
    mc.update_window(1, false, true);
    assert_eq!(window(&mc), (-2, 3, 1, 0, 1));
    mc.update_window(-5, false, false);
    mc.update_window(5, false, false);
    assert_eq!(window(&mc), (-2, 3, 1, 0, 1));
}

#[test]
fn window_never_shrinks() {
    let mut mc = sad(0);
    mc.prepare_for_energy(-10, 0.0);
    mc.prepare_for_energy(10, 0.0);
    let mut last = window(&mc);
    for (e, a, b) in [(4i64, true, true), (-3, true, true), (1, true, true), (-7, false, true), (9, true, false)] {
        mc.update_window(e, a, b);
        let now = window(&mc);
        assert!(now.0 <= last.0 && now.1 >= last.1 && now.0 <= now.1);
        last = now;
    }
    assert_eq!((last.0, last.1), (-7, 9));
}

#[test]
fn weight_index_clamps_to_window() {
    let mut mc = sad(0);
    mc.prepare_for_energy(-10, 0.0);
    mc.prepare_for_energy(10, 0.0);
    mc.update_window(4, true, false);
    mc.update_window(-2, false, true);
    assert_eq!(mc.weight_index(-9), mc.energy_to_index(-2));
    assert_eq!(mc.weight_index(8), mc.energy_to_index(4));
    assert_eq!(mc.weight_index(1), mc.energy_to_index(1));
    assert_eq!(mc.weight_index(-2), mc.energy_to_index(-2));
}

#[test]
fn sad_holds_weights_until_window_opens() {
    let mut mc = sad(0);
    mc.begin_move();
    mc.prepare_for_energy(3, 0.0);
    assert!(matches!(mc.weight_update(0), WeightUpdate::Hold));
    // window open, but nothing discovered yet
    mc.update_window(3, true, false);
    assert!(matches!(mc.weight_update(0), WeightUpdate::Hold));
    assert!(!mc.reject_move(3, false, false));
    match mc.weight_update(1) {
        WeightUpdate::Inside { i } => assert_eq!(i, 1),
        _ => panic!("expected an update inside the window"),
    }
    mc.prepare_for_energy(-2, 0.0);
    mc.prepare_for_energy(6, 0.0);
    // the table now starts at -2: energy e is in bin e + 2
    match mc.weight_update(6) {
        WeightUpdate::Anchored { i, anchor } => assert_eq!((i, anchor), (8, 5)),
        _ => panic!("expected an anchored update"),
    }
    match mc.weight_update(-2) {
        WeightUpdate::Anchored { i, anchor } => assert_eq!((i, anchor), (0, 2)),
        _ => panic!("expected an anchored update"),
    }
}

#[test]
fn samc_step_size() {
    let mut mc: EnergyMC<f64> = EnergyMC::from_params(
        EnergyMCParams { method: MethodParams::Samc { t0: 2 }, seed: None },
        0,
        None,
        0.0,
    );
    let mut steps = Vec::new();
    for _ in 0..4 {
        mc.begin_move();
        match mc.weight_update(0) {
            WeightUpdate::Step { i, num, den } => {
                assert_eq!(i, 0);
                steps.push((num, den));
            }
            _ => panic!("expected a step"),
        }
    }
    assert_eq!(steps, vec![(1, 1), (1, 1), (2, 3), (2, 4)]);
}

#[test]
fn samc_sum_over_a_thousand_moves() {
    let mut mc: EnergyMC<f64> = EnergyMC::from_params(
        EnergyMCParams { method: MethodParams::Samc { t0: 100 }, seed: None },
        0,
        None,
        0.0,
    );
    for _ in 0..1000 {
        mc.begin_move();
        mc.prepare_for_energy(0, 0.0);
        assert!(!mc.reject_move(0, false, false));
        mc.record_visit(0);
        match mc.weight_update(0) {
            WeightUpdate::Step { i, num, den } => {
                let w = mc.lnw[i] + num as f64 / den as f64;
                mc.set_lnw(i, w);
            }
            _ => panic!("expected a step"),
        }
    }
    let mut expected = 0.0f64;
    for t in 1..=1000u64 {
        expected += if t > 100 { 100.0 / t as f64 } else { 1.0 };
    }
    assert_eq!(mc.lnw[0], expected);
    assert_eq!(mc.histogram[0], 1001);
    let tail: f64 = (101..=1000).map(|t| 1.0 / t as f64).sum();
    assert!((mc.lnw[0] - (100.0 + 100.0 * tail)).abs() < 1e-9);
}

#[test]
fn visits_and_maximum() {
    let mut mc = sad(0);
    mc.prepare_for_energy(2, 0.0);
    assert_eq!(mc.record_visit(2), 2);
    assert_eq!(mc.histogram, vec![1, 0, 1]);
    mc.set_lnw(2, 1.5);
    mc.track_max(2, true);
    assert_eq!(mc.max_s, 1.5);
    assert_eq!(mc.max_entropy_energy, 2);
    mc.track_max(0, false);
    assert_eq!(mc.max_s, 1.5);
    assert_eq!(mc.max_entropy_energy, 2);
}

#[test]
fn weights_follow_the_pre_move_energy() {
    // An accepted move from 0 to 1: the visit is counted at the energy the
    // system is at afterwards, while the weight update is planned for the
    // energy the move started from.
    let mut mc: EnergyMC<f64> = EnergyMC::from_params(
        EnergyMCParams { method: MethodParams::Samc { t0: 10 }, seed: None },
        0,
        Some(1),
        0.0,
    );
    mc.begin_move();
    let e1 = 0i64;
    let e2 = 1i64;
    mc.prepare_for_energy(e2, 0.0);
    assert!(!mc.reject_move(e2, true, false));
    assert_eq!(mc.record_visit(e2), 1);
    match mc.weight_update(e1) {
        WeightUpdate::Step { i, num, den } => assert_eq!((i, num, den), (0, 1, 1)),
        _ => panic!("expected a step"),
    }
    assert_eq!(mc.histogram, vec![1, 1]);
}
