//! Tests for the single-pole IIR filter: coefficient validation and
//! the filter recurrence on float and complex samples.

use rustradio::single_pole_iir_filter::{IirSample, SinglePoleIIR, SinglePoleIIRFilter};

/// 32-bit float sample (newtype, so the sample trait can be
/// implemented here).
#[derive(Clone, Copy, Debug, Default, PartialEq)]
struct F(f32);

impl IirSample for F {
    fn iir_combine(alpha_bits: u32, prev: F, x: F) -> F {
        let alpha = f32::from_bits(alpha_bits);
        F(x.0 * alpha + prev.0 * (1.0 - alpha))
    }
}

/// Interleaved I/Q sample: a pair of 32-bit floats.
#[derive(Clone, Copy, Debug, Default, PartialEq)]
struct Complex {
    re: f32,
    im: f32,
}

impl Complex {
    fn new(re: f32, im: f32) -> Complex {
        Complex { re, im }
    }
}

impl IirSample for Complex {
    fn iir_combine(alpha_bits: u32, prev: Complex, x: Complex) -> Complex {
        Complex {
            re: F::iir_combine(alpha_bits, F(prev.re), F(x.re)).0,
            im: F::iir_combine(alpha_bits, F(prev.im), F(x.im)).0,
        }
    }
}

#[test]
fn iir_ff() -> Result<(), String> {
    let src = [F(0.1), F(0.2)];
    let mut iir = SinglePoleIIRFilter::<F>::new((0.2f32).to_bits())
        .ok_or("alpha out of range".to_string())?;
    for s in &src {
        iir.process_one(s);
    }
    Ok(())
}

#[test]
fn iir_cc() -> Result<(), String> {
    let src = [Complex::new(1.0, 0.1), Complex::default()];
    let mut iir = SinglePoleIIRFilter::<Complex>::new((0.2f32).to_bits())
        .ok_or("alpha out of range".to_string())?;
    for s in &src {
        iir.process_one(s);
    }
    Ok(())
}

#[test]
fn reject_bad_alpha() -> Result<(), String> {
    SinglePoleIIRFilter::<F>::new((0.0f32).to_bits())
        .ok_or("should accept 0.0".to_string())?;
    SinglePoleIIRFilter::<F>::new((0.1f32).to_bits())
        .ok_or("should accept 0.1".to_string())?;
    SinglePoleIIRFilter::<F>::new((1.0f32).to_bits())
        .ok_or("should accept 1.0".to_string())?;
    if SinglePoleIIRFilter::<F>::new((-0.1f32).to_bits()).is_some() {
        return Err("should not accept -0.1".to_string());
    }
    if SinglePoleIIRFilter::<F>::new((1.1f32).to_bits()).is_some() {
        return Err("should not accept 1.1".to_string());
    }
    Ok(())
}

#[test]
fn iir_linearity() {
    // alpha = 0.2 fed [0.1, 0.2]:
    //   y0 = 0.1 * 0.2 + 0.0 * 0.8 = 0.02
    //   y1 = 0.2 * 0.2 + 0.02 * 0.8 = 0.056
    let mut iir = SinglePoleIIRFilter::<F>::new((0.2f32).to_bits()).unwrap();
    let y0 = iir.process_one(&F(0.1));
    let y1 = iir.process_one(&F(0.2));
    assert!((y0.0 - 0.02).abs() < 1e-6);
    assert!((y1.0 - 0.056).abs() < 1e-6);
}

#[test]
fn iir_core_set_taps() {
    let mut core = SinglePoleIIR::<F>::new((0.5f32).to_bits()).unwrap();
    // NaN and infinity are rejected like any value outside [0, 1].
    assert!(core.set_taps(f32::NAN.to_bits()).is_none());
    assert!(core.set_taps(f32::INFINITY.to_bits()).is_none());
    // Negative zero compares equal to zero, so it is accepted.
    let mut zero_core = SinglePoleIIR::<F>::new((0.5f32).to_bits()).unwrap();
    assert!(zero_core.set_taps((-0.0f32).to_bits()).is_some());
    // Rejected coefficients left the filter's 0.5 in place.
    let y = core.filter(F(1.0));
    assert!((y.0 - 0.5).abs() < 1e-6);
}
