use gas_pvt::binary64::Double;
use gas_pvt::boundary::{checked_output, validate_point, Failure};
use gas_pvt::iteration::{
    Action, Outcome, Run, STATIC_COLUMN_STEPS, STATIC_COLUMN_STEPS_LONG, STATIC_COLUMN_TOLERANCE,
    Z_FACTOR_STEPS,
};
use gas_pvt::wellbore::{Flow, FlowAction, Segment, WellGeometry};
use gas_pvt::zfactor::{formulation, Formulation};

const A1: f64 = 0.31506237;
const A2: f64 = -1.0467099;
const A3: f64 = -0.57832729;
const A4: f64 = 0.53530771;
const A5: f64 = -0.61232032;
const A6: f64 = -0.10488813;
const A7: f64 = 0.68157001;
const A8: f64 = 0.68446549;

fn d(x: f64) -> Double {
    Double::from_bits(x.to_bits())
}

fn f(x: Double) -> f64 {
    f64::from_bits(x.to_bits())
}

fn iterate(limit: u32, seed: f64, step: impl Fn(f64) -> f64) -> f64 {
    let mut run = Run::start(limit, d(seed));
    loop {
        match run.action() {
            Action::Evaluate(x) => run = run.advance(d(step(f(x)))),
            Action::Finished(x) => return f(x),
        }
    }
}

/// The compressibility factor, with the equation chosen and the Newton
/// steps counted by the library.
fn z(pc: f64, tc: f64, t: f64, p: f64) -> f64 {
    let ppr = p / pc;
    let tpr = t / tc;
    match formulation(d(ppr)) {
        Formulation::ReducedDensity => {
            let rho = iterate(Z_FACTOR_STEPS, 0.27 * ppr / tpr, |r| {
                let fl = r - (0.27 * ppr) / tpr
                    + (A1 + A2 / tpr + A3 / tpr.powi(3)) * r.powi(2)
                    + (A4 + A5 / tpr) * r.powi(3)
                    + (A5 * A6 * r.powi(6)) / tpr
                    + (A7 * r.powi(3) / tpr.powi(3)) * (1.0 + A8 * r.powi(2)) * (-A8 * r.powi(2)).exp();
                let dfl = 1.0
                    + (A1 + A2 / tpr + A3 / tpr.powi(3)) * (2.0 * r)
                    + (A4 + A5 / tpr) * (3.0 * r.powi(2))
                    + (A5 * A6 / tpr) * (6.0 * r.powi(5))
                    + (A7 / tpr.powi(3)) * (3.0 * r.powi(2) + A8 * (3.0 * r.powi(4)))
                    - A8.powi(2) * (2.0 * r.powi(6)) * (-A8 * r.powi(2)).exp();
                r - fl / dfl
            });
            0.27 * ppr / (rho * tpr)
        }
        Formulation::Asymptotic => {
            let tt = 1.0 / tpr;
            let lead = 0.06125 * ppr * tt * (-1.2 * (1.0 - tt).powi(2)).exp();
            let y = iterate(Z_FACTOR_STEPS, lead, |y| {
                let fh = -lead + (y + y.powi(2) + y.powi(3) - y.powi(4)) / (1.0 - y).powi(3)
                    - (14.76 * tt - 9.76 * tt.powi(2) + 4.58 * tt.powi(3)) * y.powi(2)
                    + (90.7 * tt - 242.2 * tt.powi(2) + 42.4 * tt.powi(3)) * y.powf(2.18 + 2.82 * tt);
                let dh = (1.0 + 4.0 * y + 4.0 * y.powi(2) - 4.0 * y.powi(3) + y.powi(4))
                    / (1.0 - y).powi(4)
                    - (29.52 * tt - 19.52 * tt.powi(2) + 9.16 * tt.powi(3)) * y
                    + (2.18 + 2.82 * tt)
                        * (90.7 * tt - 242.2 * tt.powi(2) + 42.4 * tt.powi(3))
                        * y.powf(1.18 + 2.82 * tt);
                y - fh / dh
            });
            lead / y
        }
    }
}

fn density(rg: f64, pc: f64, tc: f64, t: f64, p: f64) -> f64 {
    3.4844 * p * rg / (z(pc, tc, t, p) * t)
}

fn viscosity(rg: f64, t: f64, density: f64, yn2: f64, yco2: f64, yh2s: f64) -> f64 {
    let kn2 = yn2 * (0.00005 * rg + 0.000047) * 100.0;
    let kco2 = yco2 * (0.000078 * rg + 0.00001) * 100.0;
    let kh2s = yh2s * (0.000058 * rg - 0.000018) * 100.0;
    let k = (0.0001 * (9.4 + 0.02 * 28.97 * rg) * (9.0 * t / 5.0).powf(1.5))
        / (209.0 + 19.0 * 28.97 * rg + 9.0 * t / 5.0)
        + kn2
        + kco2
        + kh2s;
    let x = 3.5 + 986.0 / (9.0 * t / 5.0) + 0.01 * 28.97 * rg;
    let y = 2.4 - 0.2 * x;
    k * (x * density.powf(y)).exp()
}

struct Well {
    rg: f64,
    pc: f64,
    tc: f64,
    yn2: f64,
    yco2: f64,
    yh2s: f64,
    h: f64,
    tts: f64,
    tws: f64,
    q: f64,
    ee: f64,
}

fn well() -> Well {
    Well {
        rg: 0.65,
        pc: 4.6,
        tc: 190.0,
        yn2: 0.01,
        yco2: 0.02,
        yh2s: 0.0,
        h: 3000.0,
        tts: 293.15,
        tws: 363.15,
        q: 10.0,
        ee: 1.5e-5,
    }
}

fn friction(w: &Well, p: f64, diameter: f64) -> f64 {
    let t = (w.tts + w.tws) / 2.0;
    let mu = viscosity(w.rg, t, density(w.rg, w.pc, w.tc, t, p), w.yn2, w.yco2, w.yh2s);
    let re = 179.39789 * w.q * w.rg / (diameter * mu);
    1.0 / (1.14 - 2.0 * (w.ee / diameter + 21.25 / re.powf(0.9)).log10()).powi(2)
}

fn geometry(sizes: [(f64, f64); 3]) -> WellGeometry {
    WellGeometry {
        first: Segment { diameter: d(sizes[0].0), length: d(sizes[0].1) },
        second: Segment { diameter: d(sizes[1].0), length: d(sizes[1].1) },
        third: Segment { diameter: d(sizes[2].0), length: d(sizes[2].1) },
    }
}

/// Flowing bottomhole pressure, with the walk over the segments and the
/// count of the updates left to the library.
fn pwf(w: &Well, sizes: [(f64, f64); 3], ptf: f64) -> f64 {
    let tj = 0.8742 * w.q + 20.22 + 273.15;
    let t1 = sizes[0].1 * (w.tws - tj) / w.h + tj;
    let t2 = (sizes[0].1 + sizes[1].1) * (w.tws - tj) / w.h + tj;
    let temperature = [(w.tts + w.tws) / 2.0, (t1 + t2) / 2.0, (t2 + w.tws) / 2.0];
    let mut flow = Flow::start(geometry(sizes), d(ptf));
    loop {
        match flow.action() {
            FlowAction::Seed { segment, inlet, .. } => {
                let seed = f(inlet) + f(inlet) * f(segment.length) / 12192.0;
                flow = flow.advance(d(seed));
            }
            FlowAction::Update { index, segment, inlet, outlet } => {
                let t = temperature[index];
                let p = (f(inlet) + f(outlet)) / 2.0;
                let zz = z(w.pc, w.tc, t, p);
                let ff = friction(w, p, f(segment.diameter));
                let s = 0.03415 * w.rg * f(segment.length) / (t * zz);
                let next = (f(inlet).powi(2) * 2.0f64.powf(2.0 * s)
                    + 1.324e-10 * ff * (w.q * t * zz).powi(2) * (2.0f64.powf(2.0 * s) - 1.0)
                        / f(segment.diameter).powi(5))
                .sqrt();
                flow = flow.advance(d(next));
            }
            FlowAction::Finished(p) => return f(p),
        }
    }
}

/// Static bottomhole pressure from the pressure at the top.
fn pwbs(w: &Well, pts: f64, steps: u32) -> f64 {
    let t = (w.tts + w.tws) * 0.5;
    iterate(steps, pts + pts * w.h / 12192.0, |pws| {
        let zz = z(w.pc, w.tc, t, (pts + pws) * 0.5);
        pts * (0.03415 * w.rg * w.h / (zz * t)).exp()
    })
}

/// Static pressure at the top from the pressure at the bottom; returns the
/// number of updates too.
fn ph(w: &Well, pwbs: f64, early_exit: bool) -> (f64, u32) {
    let t = (w.tts + w.tws) * 0.5;
    let tolerance = Double::from_bits(STATIC_COLUMN_TOLERANCE);
    let mut run = Run::start(STATIC_COLUMN_STEPS, d(pwbs / (1.0 + w.h / 12192.0)));
    let mut updates = 0;
    loop {
        match run.action() {
            Action::Evaluate(x) => {
                let pts = f(x);
                let zz = z(w.pc, w.tc, t, (pts + pwbs) * 0.5);
                let next = pwbs / (0.03415 * w.rg * w.h / (zz * t)).exp();
                updates += 1;
                run = if early_exit {
                    run.advance_within(Outcome { value: d(next), change: d(next - pts) }, tolerance)
                } else {
                    run.advance(d(next))
                };
            }
            Action::Finished(x) => return (f(x), updates),
        }
    }
}

fn close(a: f64, b: f64) -> bool {
    (a - b).abs() <= 1e-9 * b.abs()
}

#[test]
fn golden_compressibility_factor() {
    let value = z(4.6, 190.6, 350.0, 20.0);
    assert!((value - 0.9125118465154466).abs() < 1e-9, "z = {value}");
}

#[test]
fn compressibility_factor_on_both_sides_of_the_lower_bound() {
    let below = z(4.6, 190.6, 350.0, 0.099 * 4.6);
    let above = z(4.6, 190.6, 350.0, 0.101 * 4.6);
    assert!((below - 0.9951941636053256).abs() < 1e-9, "below = {below}");
    assert!((above - 0.9948697557844033).abs() < 1e-9, "above = {above}");
    assert!((below - above).abs() < 1e-2);
}

#[test]
fn compressibility_factor_on_both_sides_of_the_upper_bound() {
    let below = z(4.6, 190.6, 350.0, 13.99 * 4.6);
    let above = z(4.6, 190.6, 350.0, 14.01 * 4.6);
    assert!((below - 1.3543148277913615).abs() < 1e-9, "below = {below}");
    assert!((above - 1.3571385260236).abs() < 1e-9, "above = {above}");
    assert!((below - above).abs() < 1e-2);
}

#[test]
fn compressibility_factor_stays_in_the_physical_band() {
    for ppr in [0.1, 0.5, 1.0, 2.0, 5.0, 8.0, 10.0] {
        for tpr in [1.2, 1.5, 1.836, 2.0, 2.5] {
            let value = z(4.6, 190.6, tpr * 190.6, ppr * 4.6);
            assert!(value > 0.0 && value <= 1.5, "z({ppr}, {tpr}) = {value}");
        }
    }
}

#[test]
fn compressibility_factor_tends_to_one_at_low_pressure() {
    let value = z(4.6, 190.6, 350.0, 0.01 * 4.6);
    assert!((value - 0.9995107181081053).abs() < 1e-9, "z = {value}");
    let lower = z(4.6, 190.6, 350.0, 0.0001 * 4.6);
    assert!((lower - 1.0).abs() < 1e-4, "z = {lower}");
}

#[test]
fn density_and_viscosity_at_the_golden_point() {
    let rho = density(0.6, 4.6, 190.6, 350.0, 20.0);
    assert!(close(rho, 0.1309190048472654), "density = {rho}");
    let mu = viscosity(0.6, 350.0, rho, 0.01, 0.02, 0.0);
    assert!(close(mu, 0.01869760826823661), "viscosity = {mu}");
}

#[test]
fn static_column_forward() {
    let w = well();
    let bottom = pwbs(&w, 5.0, STATIC_COLUMN_STEPS);
    assert!(close(bottom, 6.2184364632621865), "pwbs = {bottom}");
    let long = pwbs(&w, 5.0, STATIC_COLUMN_STEPS_LONG);
    assert!(close(long, 6.2184364632621865), "pwbs = {long}");
}

#[test]
fn static_column_round_trip() {
    let w = well();
    let bottom = pwbs(&w, 5.0, STATIC_COLUMN_STEPS);
    let (top, updates) = ph(&w, bottom, false);
    assert_eq!(updates, 30);
    assert!((top - 5.0).abs() < 1e-2, "ph = {top}");
    assert!((top - 5.0).abs() < 1e-9, "ph = {top}");
}

#[test]
fn static_column_round_trip_with_early_exit() {
    let w = well();
    let bottom = pwbs(&w, 5.0, STATIC_COLUMN_STEPS);
    let (top, updates) = ph(&w, bottom, true);
    assert_eq!(updates, 2);
    assert!((top - 5.0).abs() < 1e-2, "ph = {top}");
    assert!(close(top, 4.999999626784805), "ph = {top}");
}

#[test]
fn flowing_pressure_of_three_segments() {
    let w = well();
    let bottom = pwf(&w, [(0.062, 2500.0), (0.0503, 300.0), (0.1, 200.0)], 5.0);
    assert!(close(bottom, 6.463546808692269), "pwf = {bottom}");
}

#[test]
fn flowing_pressure_of_the_first_segment_alone() {
    let w = well();
    let with_lengths = pwf(&w, [(0.062, 2500.0), (0.0, 300.0), (0.0, 200.0)], 5.0);
    let without = pwf(&w, [(0.062, 2500.0), (0.0, 0.0), (0.0, 0.0)], 5.0);
    assert_eq!(with_lengths.to_bits(), without.to_bits());
    assert!(close(with_lengths, 6.159541766030071), "pwf = {with_lengths}");
}

#[test]
fn flowing_pressure_skips_absent_segments() {
    let w = well();
    let middle_only = pwf(&w, [(0.0, 2500.0), (0.0503, 300.0), (-1.0, 200.0)], 5.0);
    assert!(close(middle_only, 5.263309098483188), "pwf = {middle_only}");
    let none = pwf(&w, [(0.0, 2500.0), (0.0, 300.0), (0.0, 200.0)], 5.0);
    assert_eq!(none.to_bits(), 5.0f64.to_bits());
}

#[test]
fn degenerate_inputs_are_stopped_before_and_after() {
    assert_eq!(validate_point(d(0.0), d(190.6), d(20.0)), Err(Failure::InvalidInput));
    let value = z(0.0, 190.6, 350.0, 20.0);
    assert_eq!(checked_output(d(value)).map(|v| v.to_bits()), Err(Failure::InvalidInput));
    let fine = z(4.6, 190.6, 350.0, 20.0);
    assert_eq!(checked_output(d(fine)).map(|v| v.to_bits()), Ok(fine.to_bits()));
}
