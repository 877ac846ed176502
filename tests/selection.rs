use mbrot::{
    axis_fraction, random_colormap, AxisFraction, Colormap, Escape, StepBand, COLORMAP_COUNT, MAX_STEPS,
    MIN_STEPS,
};

#[test]
fn step_band_requires_min_below_max() {
    assert_eq!(StepBand::new(1, 50), Some(StepBand { min_steps: 1, max_steps: 50 }));
    assert_eq!(StepBand::new(50, 50), None);
    assert_eq!(StepBand::new(60, 50), None);
}

#[test]
fn step_band_default() {
    let b = StepBand::default();
    assert_eq!(b.min_steps, MIN_STEPS);
    assert_eq!(b.max_steps, MAX_STEPS);
    assert_eq!((b.min_steps, b.max_steps), (150, 1024));
}

#[test]
fn step_band_is_half_open() {
    let b = StepBand::new(150, 1024).unwrap();
    assert!(!b.contains(149));
    assert!(b.contains(150));
    assert!(b.contains(1023));
    assert!(!b.contains(1024));
    assert!(!b.contains(0));
}

#[test]
fn accepted_centers_lie_in_band() {
    let b = StepBand::new(10, 20).unwrap();
    assert_eq!(b.accept_center((0.25f64, 0.5f64), 10), Some(((0.25, 0.5), 10)));
    assert_eq!(b.accept_center((0.25f64, 0.5f64), 19), Some(((0.25, 0.5), 19)));
    assert_eq!(b.accept_center((0.25f64, 0.5f64), 20), None);
    assert_eq!(b.accept_center((0.25f64, 0.5f64), 9), None);
    for steps in 0..40u32 {
        if let Some((_, s)) = b.accept_center((), steps) {
            assert!((10..20).contains(&s));
        }
    }
}

#[test]
fn random_colormap_is_repeatable_for_a_seed() {
    let a: Vec<Colormap> = {
        let mut rng = fastrand::Rng::with_seed(42);
        (0..16).map(|_| random_colormap(&mut rng)).collect()
    };
    let b: Vec<Colormap> = {
        let mut rng = fastrand::Rng::with_seed(42);
        (0..16).map(|_| random_colormap(&mut rng)).collect()
    };
    assert_eq!(a, b);
}

#[test]
fn random_colormap_reaches_many_palettes() {
    let mut rng = fastrand::Rng::with_seed(7);
    let mut seen = vec![false; COLORMAP_COUNT];
    for _ in 0..2000 {
        seen[random_colormap(&mut rng).index()] = true;
    }
    assert!(seen.iter().all(|&s| s));
}

#[test]
fn axis_fraction_ends_of_axis() {
    assert_eq!(axis_fraction(0, 1920), AxisFraction { num: 0, den: 1919 });
    assert_eq!(axis_fraction(1919, 1920), AxisFraction { num: 1919, den: 1919 });
    assert_eq!(axis_fraction(7, 11), AxisFraction { num: 7, den: 10 });
    assert_eq!(axis_fraction(0, 2), AxisFraction { num: 0, den: 1 });
    assert_eq!(axis_fraction(1, 2), AxisFraction { num: 1, den: 1 });
}

#[test]
fn axis_fraction_single_pixel_pins_minimum() {
    assert_eq!(axis_fraction(0, 1), AxisFraction { num: 0, den: 1 });
}

#[test]
fn escape_palette_step() {
    assert_eq!(Escape::Escaped(17).palette_step(), 17);
    assert_eq!(Escape::Escaped(0).palette_step(), 0);
    assert_eq!(Escape::Bounded.palette_step(), 0);
}
