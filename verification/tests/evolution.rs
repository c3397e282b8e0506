//! Tests of the view state: well-formedness over bit patterns, and the zoom
//! evolution measured against real double-precision arithmetic.

use mandelbrot::ZoomLocation;
use mandelbrot::evolve;

fn view(re: f64, im: f64, zoom: f64, iterations: u64) -> ZoomLocation {
    ZoomLocation {
        re_bits: re.to_bits(),
        im_bits: im.to_bits(),
        zoom_bits: zoom.to_bits(),
        iterations,
    }
}

#[test]
fn well_formedness_follows_the_float_ranges() {
    assert!(view(-1.75, 0.0, 100.0, 2048).is_well_formed());
    assert!(view(0.0, 0.0, f64::MIN_POSITIVE, 1).is_well_formed());
    assert!(view(0.0, 0.0, f64::MAX, 1).is_well_formed());
    // zoom must be positive and normal
    assert!(!view(0.0, 0.0, 0.0, 10).is_well_formed());
    assert!(!view(0.0, 0.0, -100.0, 10).is_well_formed());
    assert!(!view(0.0, 0.0, 1.0e-320, 10).is_well_formed());
    assert!(!view(0.0, 0.0, f64::INFINITY, 10).is_well_formed());
    assert!(!view(0.0, 0.0, f64::NAN, 10).is_well_formed());
    // center coordinates must be finite
    assert!(!view(f64::NAN, 0.0, 100.0, 10).is_well_formed());
    assert!(!view(0.0, f64::NEG_INFINITY, 100.0, 10).is_well_formed());
    // the iteration budget must be positive
    assert!(!view(0.0, 0.0, 100.0, 0).is_well_formed());
}

#[test]
fn one_step_doubles_the_zoom_exactly() {
    let zl = view(-0.5, 0.25, 100.0, 2048);
    let evolved = evolve(&zl).expect("zoom far from the boundary");
    assert_eq!(f64::from_bits(evolved.zoom_bits), 200.0);
    assert_eq!(evolved.zoom_bits, (2.0f64 * 100.0).to_bits());
    assert_eq!(evolved.re_bits, zl.re_bits);
    assert_eq!(evolved.im_bits, zl.im_bits);
    assert_eq!(evolved.iterations, zl.iterations);
}

#[test]
fn repeated_evolution_grows_by_powers_of_two() {
    let mut zl = view(-1.75, 0.0, 100.0, 64);
    for n in 1..=10u32 {
        zl = evolve(&zl).expect("zoom far from the boundary");
        assert_eq!(f64::from_bits(zl.zoom_bits), 100.0 * 2.0f64.powi(n as i32));
        assert_eq!(f64::from_bits(zl.re_bits), -1.75);
        assert_eq!(f64::from_bits(zl.im_bits), 0.0);
        assert_eq!(zl.iterations, 64);
    }
    assert_eq!(f64::from_bits(zl.zoom_bits), 102400.0);
}

#[test]
fn evolution_matches_float_doubling_everywhere_normal() {
    let samples = [1.0f64, 100.0, 1.5, 0.375, 3.0e300, 7.25e-250, f64::MIN_POSITIVE];
    for zoom in samples {
        let zl = view(0.0, 0.0, zoom, 16);
        let evolved = evolve(&zl).expect("doubling stays finite for these samples");
        assert_eq!(f64::from_bits(evolved.zoom_bits), zoom * 2.0);
    }
}

#[test]
fn evolution_reports_the_representable_boundary() {
    let zl = view(0.0, 0.0, f64::MAX, 16);
    assert!(zl.is_well_formed());
    assert!(evolve(&zl).is_none());
}
