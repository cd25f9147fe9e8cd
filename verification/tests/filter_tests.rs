use seismo_integrate::integral::acc_to_vel;
use seismo_integrate::integral::acceleration_to_velocity;
use seismo_integrate::integral::integrate;
use seismo_integrate::integral::vel_to_disp;
use seismo_integrate::integral::velocity_to_displacement;
use seismo_integrate::integral::DEFAULT_DT_BITS;
use seismo_integrate::record::ParseData;

fn bits_of(xs: &[f64]) -> Vec<u64> {
    xs.iter().map(|x| x.to_bits()).collect()
}

fn vals_of(bs: &[u64]) -> Vec<f64> {
    bs.iter().map(|b| f64::from_bits(*b)).collect()
}

fn sample_channel(n: usize) -> Vec<f64> {
    // A deterministic, varied signal built from integer arithmetic.
    (0..n)
        .map(|i| {
            let k = (i * i % 97) as f64 - 48.0;
            k / 7.0 + (i % 13) as f64 * 0.25
        })
        .collect()
}

fn record_from(ns: &[f64], ew: &[f64], ud: &[f64]) -> ParseData {
    ParseData {
        file_name: "station".to_string(),
        title: "SITE CODE=TST".to_string(),
        rate: "SAMPLING RATE =100Hz".to_string(),
        unit: " UNIT  =gal".to_string(),
        time: "INITIAL TIME =2024/01/01".to_string(),
        ns_acc: bits_of(ns),
        ew_acc: bits_of(ew),
        ud_acc: bits_of(ud),
    }
}

/// The recursion of the velocity filter written directly over doubles, as a
/// reference oracle for the bit-level pipeline.
fn oracle_vel(a: &[f64]) -> Vec<f64> {
    const G: f64 = 0.004937561699;
    const A1: f64 = -2.974867761716;
    const A2: f64 = 2.950050339269;
    const A3: f64 = -0.975180618018;
    const B0: f64 = 1.0;
    const B1: f64 = -1.0;
    const B2: f64 = -1.0;
    const B3: f64 = 1.0;
    let mut v: Vec<f64> = Vec::new();
    for i in 0..a.len() {
        if i <= 4 {
            v.push(0.0);
        } else {
            v.push(
                G * (B0 * a[i] + B1 * a[i - 1] + B2 * a[i - 2] + B3 * a[i - 3])
                    - (A1 * v[i - 1] + A2 * v[i - 2] + A3 * v[i - 3]),
            );
        }
    }
    v
}

/// The recursion of the displacement filter written directly over doubles.
fn oracle_disp(v: &[f64], dt: f64) -> Vec<f64> {
    const H: f64 = 1.0;
    const C1: f64 = -1.988438073558305;
    const C2: f64 = 0.9885471048650272;
    const D0: f64 = 0.00002485615736514583;
    const D1: f64 = 0.00004971231473029166;
    const D2: f64 = 0.00002485615736514583;
    let mut raw: Vec<f64> = Vec::new();
    for i in 0..v.len() {
        if i <= 4 {
            raw.push(0.0);
        } else {
            raw.push(
                H * (D0 * v[i] + D1 * v[i - 1] + D2 * v[i - 2])
                    - (C1 * raw[i - 1] + C2 * raw[i - 2]),
            );
        }
    }
    raw.iter().map(|d| d * dt).collect()
}

#[test]
fn matches_double_precision_recursion_bit_for_bit() {
    let a = sample_channel(200);
    let v = acceleration_to_velocity(&bits_of(&a));
    let expected_v = oracle_vel(&a);
    assert_eq!(v, bits_of(&expected_v));
    let d = velocity_to_displacement(&v, 0.01f64.to_bits());
    let expected_d = oracle_disp(&expected_v, 0.01);
    assert_eq!(d, bits_of(&expected_d));
}

#[test]
fn determinism_two_runs_agree() {
    let ns = sample_channel(64);
    let ew = sample_channel(64).iter().map(|x| x * 3.0).collect::<Vec<f64>>();
    let ud = sample_channel(64).iter().map(|x| x - 2.5).collect::<Vec<f64>>();
    let r1 = integrate(&record_from(&ns, &ew, &ud), DEFAULT_DT_BITS);
    let r2 = integrate(&record_from(&ns, &ew, &ud), DEFAULT_DT_BITS);
    assert_eq!(r1.ns_vel, r2.ns_vel);
    assert_eq!(r1.ew_vel, r2.ew_vel);
    assert_eq!(r1.ud_vel, r2.ud_vel);
    assert_eq!(r1.ns_dist, r2.ns_dist);
    assert_eq!(r1.ew_dist, r2.ew_dist);
    assert_eq!(r1.ud_dist, r2.ud_dist);
}

#[test]
fn warm_up_first_five_samples_are_zero() {
    let ns = sample_channel(40).iter().map(|x| x + 5.0).collect::<Vec<f64>>();
    let ew = sample_channel(40).iter().map(|x| x - 9.0).collect::<Vec<f64>>();
    let ud = sample_channel(40).iter().map(|x| x * 11.0).collect::<Vec<f64>>();
    let r = integrate(&record_from(&ns, &ew, &ud), DEFAULT_DT_BITS);
    for ch in [&r.ns_vel, &r.ew_vel, &r.ud_vel, &r.ns_dist, &r.ew_dist, &r.ud_dist] {
        for i in 0..5 {
            assert_eq!(f64::from_bits(ch[i]), 0.0);
        }
    }
}

#[test]
fn length_preservation() {
    let n = 73;
    let ns = sample_channel(n);
    let ew = sample_channel(n);
    let ud = sample_channel(n);
    let r = integrate(&record_from(&ns, &ew, &ud), DEFAULT_DT_BITS);
    for ch in [
        &r.ns_acc, &r.ew_acc, &r.ud_acc, &r.ns_vel, &r.ew_vel, &r.ud_vel, &r.ns_dist,
        &r.ew_dist, &r.ud_dist,
    ] {
        assert_eq!(ch.len(), n);
    }
}

#[test]
fn short_input_every_derived_sample_is_zero() {
    for n in 0..5 {
        let c = sample_channel(n).iter().map(|x| x + 123.0).collect::<Vec<f64>>();
        let r = integrate(&record_from(&c, &c, &c), DEFAULT_DT_BITS);
        for ch in [&r.ns_vel, &r.ew_vel, &r.ud_vel, &r.ns_dist, &r.ew_dist, &r.ud_dist] {
            assert_eq!(ch.len(), n);
            for b in ch.iter() {
                assert_eq!(f64::from_bits(*b), 0.0);
            }
        }
    }
}

#[test]
fn zero_input_gives_zero_output() {
    for n in [1, 6, 50] {
        let z = vec![0.0f64; n];
        let r = integrate(&record_from(&z, &z, &z), DEFAULT_DT_BITS);
        for ch in [&r.ns_vel, &r.ew_vel, &r.ud_vel, &r.ns_dist, &r.ew_dist, &r.ud_dist] {
            for b in ch.iter() {
                assert_eq!(f64::from_bits(*b), 0.0);
            }
        }
    }
}

#[test]
fn axis_independence_other_axes_unchanged() {
    let ew = sample_channel(48);
    let ud = sample_channel(48).iter().map(|x| x * 2.0).collect::<Vec<f64>>();
    let ns1 = sample_channel(48).iter().map(|x| x + 7.0).collect::<Vec<f64>>();
    let ns2 = vec![0.0f64; 48];
    let r1 = integrate(&record_from(&ns1, &ew, &ud), DEFAULT_DT_BITS);
    let r2 = integrate(&record_from(&ns2, &ew, &ud), DEFAULT_DT_BITS);
    assert_eq!(r1.ew_vel, r2.ew_vel);
    assert_eq!(r1.ud_vel, r2.ud_vel);
    assert_eq!(r1.ew_dist, r2.ew_dist);
    assert_eq!(r1.ud_dist, r2.ud_dist);
    assert_ne!(r1.ns_vel, r2.ns_vel);
}

#[test]
fn unit_impulse_anchors_the_velocity_gain() {
    let mut a = vec![0.0f64; 12];
    a[6] = 1.0;
    let r = integrate(&record_from(&a, &vec![0.0f64; 12], &vec![0.0f64; 12]), DEFAULT_DT_BITS);
    assert_eq!(f64::from_bits(r.ns_vel[5]), 0.0);
    assert_eq!(f64::from_bits(r.ns_vel[6]), 0.004937561699);
}

#[test]
fn displacement_scales_with_dt() {
    let v = bits_of(&sample_channel(80));
    let d1 = velocity_to_displacement(&v, 0.01f64.to_bits());
    let d2 = velocity_to_displacement(&v, 0.02f64.to_bits());
    assert_eq!(d1.len(), d2.len());
    let d1v = vals_of(&d1);
    let d2v = vals_of(&d2);
    let mut some_nonzero = false;
    for i in 0..d1v.len() {
        assert_eq!(d2v[i], d1v[i] * 2.0);
        if d1v[i] != 0.0 {
            some_nonzero = true;
        }
    }
    assert!(some_nonzero);
}

#[test]
fn three_channel_helpers_match_single_channel_passes() {
    let ns = bits_of(&sample_channel(30));
    let ew = bits_of(&sample_channel(30).iter().map(|x| x * 4.0).collect::<Vec<f64>>());
    let ud = bits_of(&sample_channel(30).iter().map(|x| x - 1.0).collect::<Vec<f64>>());
    let (vns, vew, vud) = acc_to_vel(&ns, &ew, &ud);
    assert_eq!(vns, acceleration_to_velocity(&ns));
    assert_eq!(vew, acceleration_to_velocity(&ew));
    assert_eq!(vud, acceleration_to_velocity(&ud));
    let (dns, dew, dud) = vel_to_disp(&vns, &vew, &vud, DEFAULT_DT_BITS);
    assert_eq!(dns, velocity_to_displacement(&vns, DEFAULT_DT_BITS));
    assert_eq!(dew, velocity_to_displacement(&vew, DEFAULT_DT_BITS));
    assert_eq!(dud, velocity_to_displacement(&vud, DEFAULT_DT_BITS));
}

#[test]
fn integrate_carries_metadata_and_acceleration_through() {
    let ns = sample_channel(20);
    let r = integrate(&record_from(&ns, &ns, &ns), DEFAULT_DT_BITS);
    assert_eq!(r.file_name, "station");
    assert_eq!(r.title, "SITE CODE=TST");
    assert_eq!(r.rate, "SAMPLING RATE =100Hz");
    assert_eq!(r.unit, " UNIT  =gal");
    assert_eq!(r.time, "INITIAL TIME =2024/01/01");
    assert_eq!(r.ns_acc, bits_of(&ns));
    assert_eq!(r.ew_acc, bits_of(&ns));
    assert_eq!(r.ud_acc, bits_of(&ns));
}
