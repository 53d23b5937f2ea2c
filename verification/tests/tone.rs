use moon_art::{Brightness, Gamma, ToneCurve};

fn power_law_steps(gamma: f32) -> [u8; 256] {
    let mut steps = [0u8; 256];
    for (luma, step) in steps.iter_mut().enumerate() {
        let normal = luma as u8 as f32 / u8::MAX as f32;
        *step = (normal.powf(gamma) * 5.0).round() as u8;
    }
    steps
}

#[test]
fn step_counts_saturate_at_the_top_level() {
    assert_eq!(Brightness::from_steps(0), Brightness::Zero);
    assert_eq!(Brightness::from_steps(1), Brightness::One);
    assert_eq!(Brightness::from_steps(2), Brightness::Two);
    assert_eq!(Brightness::from_steps(3), Brightness::Three);
    assert_eq!(Brightness::from_steps(4), Brightness::Bright);
    assert_eq!(Brightness::from_steps(5), Brightness::Bright);
    assert_eq!(Brightness::from_steps(6), Brightness::Bright);
    assert_eq!(Brightness::from_steps(255), Brightness::Bright);
}

#[test]
fn levels_are_numbered_zero_to_four() {
    assert_eq!(Brightness::Zero.level(), 0);
    assert_eq!(Brightness::One.level(), 1);
    assert_eq!(Brightness::Two.level(), 2);
    assert_eq!(Brightness::Three.level(), 3);
    assert_eq!(Brightness::Bright.level(), 4);
}

#[test]
fn linear_curve_rounds_to_the_nearest_step() {
    let curve = ToneCurve::linear();
    let expected = [
        (0u8, 0u8),
        (25, 0),
        (26, 1),
        (51, 1),
        (76, 1),
        (77, 2),
        (102, 2),
        (127, 2),
        (128, 3),
        (153, 3),
        (178, 3),
        (179, 4),
        (204, 4),
        (229, 4),
        (230, 5),
        (255, 5),
    ];
    for (luma, steps) in expected {
        assert_eq!(curve.steps_at(luma), steps, "luma {luma}");
    }
}

#[test]
fn linear_curve_levels() {
    let curve = ToneCurve::linear();
    assert_eq!(curve.brightness(0), Brightness::Zero);
    assert_eq!(curve.brightness(25), Brightness::Zero);
    assert_eq!(curve.brightness(26), Brightness::One);
    assert_eq!(curve.brightness(77), Brightness::Two);
    assert_eq!(curve.brightness(128), Brightness::Three);
    assert_eq!(curve.brightness(179), Brightness::Bright);
    assert_eq!(curve.brightness(230), Brightness::Bright);
    assert_eq!(curve.brightness(255), Brightness::Bright);
}

#[test]
fn linear_levels_never_fall_as_luma_rises() {
    let curve = ToneCurve::linear();
    let mut last = 0u8;
    for luma in 0..=255u8 {
        let level = curve.brightness(luma).level();
        assert!(level >= last, "luma {luma}");
        last = level;
    }
    assert_eq!(last, 4);
}

#[test]
fn levels_stay_in_range_for_any_gamma() {
    for gamma in [0.01f32, 0.2, 0.5, 1.0, 1.8, 2.2, 5.0, 100.0] {
        let curve = ToneCurve::from_steps(power_law_steps(gamma));
        for luma in 0..=255u8 {
            assert!(curve.brightness(luma).level() <= 4, "gamma {gamma}, luma {luma}");
        }
    }
}

#[test]
fn levels_stay_in_range_for_any_table() {
    let mut steps = [0u8; 256];
    for (luma, step) in steps.iter_mut().enumerate() {
        *step = (luma as u8).wrapping_mul(37);
    }
    let curve = ToneCurve::from_steps(steps);
    for luma in 0..=255u8 {
        let level = curve.brightness(luma).level();
        assert_eq!(level, steps[luma as usize].min(4));
    }
}

#[test]
fn unit_gamma_leaves_the_luma_as_it_is() {
    for luma in 0..=255u8 {
        let normal = luma as f32 / u8::MAX as f32;
        assert_eq!(normal.powf(1.0), normal);
    }
}

#[test]
fn linear_curve_is_the_power_law_at_gamma_one() {
    let by_power_law = power_law_steps(1.0);
    let curve = ToneCurve::linear();
    for luma in 0..=255u8 {
        assert_eq!(curve.steps_at(luma), by_power_law[luma as usize], "luma {luma}");
    }
    assert_eq!(curve, ToneCurve::from_steps(by_power_law));
}

#[test]
fn only_unit_gamma_has_an_exact_curve() {
    assert_eq!(ToneCurve::exact(&Gamma::unit()), Some(ToneCurve::linear()));
    for gamma in [0.5f32, 0.99999994, 1.0000001, 2.0, 2.2] {
        let gamma = Gamma::from_bits(gamma.to_bits()).unwrap();
        assert_eq!(ToneCurve::exact(&gamma), None);
    }
}

#[test]
fn a_curve_keeps_the_steps_it_was_given() {
    let steps = power_law_steps(2.2);
    let curve = ToneCurve::from_steps(steps);
    for luma in 0..=255u8 {
        assert_eq!(curve.steps_at(luma), steps[luma as usize]);
    }
    assert_eq!(curve.steps_at(128), 1);
    assert_eq!(curve.steps_at(255), 5);
}

#[test]
fn gamma_below_one_brightens_midtones() {
    let brightened = ToneCurve::from_steps(power_law_steps(0.5));
    let darkened = ToneCurve::from_steps(power_law_steps(2.0));
    let linear = ToneCurve::linear();
    assert_eq!(linear.steps_at(64), 1);
    assert_eq!(brightened.steps_at(64), 3);
    assert_eq!(darkened.steps_at(64), 0);
}
