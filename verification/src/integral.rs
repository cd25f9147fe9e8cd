//! The integration engine: acceleration to velocity to displacement.
//!
//! Two cascaded recursive digital filters are applied sample by sample and
//! independently to each axis channel. The first, third-order filter turns
//! acceleration into velocity; the second, second-order filter turns
//! velocity into a raw displacement sequence that is then scaled by the
//! sampling interval `dt`. The first five samples of every pass are forced
//! to zero: the warm-up policy that keeps the recursion from reaching before
//! index 0. Every coefficient is a fixed double, carried here as its bit
//! pattern, and every arithmetic step is pinned, in evaluation order, by the
//! operation names of `fp`.

use vstd::prelude::*;

use crate::fp::add64;
use crate::fp::add_bits;
use crate::fp::is_finite_bits;
use crate::fp::is_zero_bits;
use crate::fp::mul64;
use crate::fp::mul_bits;
use crate::fp::sub64;
use crate::fp::sub_bits;
use crate::fp::POS_ZERO_BITS;
use crate::record::ParseData;
use crate::record::PlotData;

verus! {

/// Feed-forward gain of the velocity filter: the double 0.004937561699.
pub const G_BITS: u64 = 0x3F74_3968_A04E_973C;

/// First feedback tap of the velocity filter: the double -2.974867761716.
pub const A1_BITS: u64 = 0xC007_CC87_7813_F5A4;

/// Second feedback tap of the velocity filter: the double 2.950050339269.
pub const A2_BITS: u64 = 0x4007_99B3_FE05_B665;

/// Third feedback tap of the velocity filter: the double -0.975180618018.
pub const A3_BITS: u64 = 0xBFEF_34AD_FBC2_9276;

/// First feed-forward tap of the velocity filter: the double 1.0.
pub const B0_BITS: u64 = 0x3FF0_0000_0000_0000;

/// Second feed-forward tap of the velocity filter: the double -1.0.
pub const B1_BITS: u64 = 0xBFF0_0000_0000_0000;

/// Third feed-forward tap of the velocity filter: the double -1.0.
pub const B2_BITS: u64 = 0xBFF0_0000_0000_0000;

/// Fourth feed-forward tap of the velocity filter: the double 1.0.
pub const B3_BITS: u64 = 0x3FF0_0000_0000_0000;

/// Feed-forward gain of the displacement filter: the double 1.0.
pub const H_BITS: u64 = 0x3FF0_0000_0000_0000;

/// First feedback tap of the displacement filter: the double
/// -1.988438073558305.
pub const C1_BITS: u64 = 0xBFFF_D0A4_7100_DDD9;

/// Second feedback tap of the displacement filter: the double
/// 0.9885471048650272.
pub const C2_BITS: u64 = 0x3FEF_A22D_89BE_6CBE;

/// First feed-forward tap of the displacement filter: the double
/// 0.00002485615736514583.
pub const D0_BITS: u64 = 0x3EFA_1046_20B7_887E;

/// Second feed-forward tap of the displacement filter: the double
/// 0.00004971231473029166.
pub const D1_BITS: u64 = 0x3F0A_1046_20B7_887E;

/// Third feed-forward tap of the displacement filter: the double
/// 0.00002485615736514583.
pub const D2_BITS: u64 = 0x3EFA_1046_20B7_887E;

/// The usual sampling interval of one hundredth of a second, as the bits of
/// the double 0.01.
pub const DEFAULT_DT_BITS: u64 = 0x3F84_7AE1_47AE_147B;

/// Every filter coefficient is a finite double.
pub proof fn lemma_coefficients_finite()
    ensures
        is_finite_bits(G_BITS),
        is_finite_bits(A1_BITS),
        is_finite_bits(A2_BITS),
        is_finite_bits(A3_BITS),
        is_finite_bits(B0_BITS),
        is_finite_bits(B1_BITS),
        is_finite_bits(B2_BITS),
        is_finite_bits(B3_BITS),
        is_finite_bits(H_BITS),
        is_finite_bits(C1_BITS),
        is_finite_bits(C2_BITS),
        is_finite_bits(D0_BITS),
        is_finite_bits(D1_BITS),
        is_finite_bits(D2_BITS),
        is_finite_bits(DEFAULT_DT_BITS),
{
    assert((0x3F74_3968_A04E_973Cu64 >> 52) & 0x7FF != 0x7FF) by (bit_vector);
    assert((0xC007_CC87_7813_F5A4u64 >> 52) & 0x7FF != 0x7FF) by (bit_vector);
    assert((0x4007_99B3_FE05_B665u64 >> 52) & 0x7FF != 0x7FF) by (bit_vector);
    assert((0xBFEF_34AD_FBC2_9276u64 >> 52) & 0x7FF != 0x7FF) by (bit_vector);
    assert((0x3FF0_0000_0000_0000u64 >> 52) & 0x7FF != 0x7FF) by (bit_vector);
    assert((0xBFF0_0000_0000_0000u64 >> 52) & 0x7FF != 0x7FF) by (bit_vector);
    assert((0xBFFF_D0A4_7100_DDD9u64 >> 52) & 0x7FF != 0x7FF) by (bit_vector);
    assert((0x3FEF_A22D_89BE_6CBEu64 >> 52) & 0x7FF != 0x7FF) by (bit_vector);
    assert((0x3EFA_1046_20B7_887Eu64 >> 52) & 0x7FF != 0x7FF) by (bit_vector);
    assert((0x3F0A_1046_20B7_887Eu64 >> 52) & 0x7FF != 0x7FF) by (bit_vector);
    assert((0x3F84_7AE1_47AE_147Bu64 >> 52) & 0x7FF != 0x7FF) by (bit_vector);
}

/// The velocity sample at index `i` derived from the acceleration channel
/// `a`: zero through the warm-up region, and past it the third-order
/// recursion, with every operation in the evaluation order of the
/// implementation.
pub open spec fn vel_at(a: Seq<u64>, i: int) -> u64
    decreases i,
{
    if i <= 4 {
        POS_ZERO_BITS
    } else {
        let feed = mul64(
            G_BITS,
            add64(
                add64(add64(mul64(B0_BITS, a[i]), mul64(B1_BITS, a[i - 1])), mul64(B2_BITS, a[i - 2])),
                mul64(B3_BITS, a[i - 3]),
            ),
        );
        let back = add64(
            add64(mul64(A1_BITS, vel_at(a, i - 1)), mul64(A2_BITS, vel_at(a, i - 2))),
            mul64(A3_BITS, vel_at(a, i - 3)),
        );
        sub64(feed, back)
    }
}

/// The whole velocity channel derived from the acceleration channel `a`.
pub open spec fn vel_seq(a: Seq<u64>) -> Seq<u64> {
    Seq::new(a.len(), |i: int| vel_at(a, i))
}

/// The unscaled displacement sample at index `i` derived from the velocity
/// channel `v`: zero through the warm-up region, and past it the
/// second-order recursion, with every operation in the evaluation order of
/// the implementation. The recursion takes no part of `dt`.
pub open spec fn raw_at(v: Seq<u64>, i: int) -> u64
    decreases i,
{
    if i <= 4 {
        POS_ZERO_BITS
    } else {
        let feed = mul64(
            H_BITS,
            add64(add64(mul64(D0_BITS, v[i]), mul64(D1_BITS, v[i - 1])), mul64(D2_BITS, v[i - 2])),
        );
        let back = add64(mul64(C1_BITS, raw_at(v, i - 1)), mul64(C2_BITS, raw_at(v, i - 2)));
        sub64(feed, back)
    }
}

/// The displacement sample at index `i`: the raw recursion output scaled by
/// the sampling interval `dt`.
pub open spec fn disp_at(v: Seq<u64>, dt: u64, i: int) -> u64 {
    mul64(raw_at(v, i), dt)
}

/// The whole displacement channel derived from the velocity channel `v` and
/// the sampling interval `dt`.
pub open spec fn disp_seq(v: Seq<u64>, dt: u64) -> Seq<u64> {
    Seq::new(v.len(), |i: int| disp_at(v, dt, i))
}

/// Warm-up: whatever a channel holds, both filter recursions yield zero at
/// the first five indices.
pub proof fn lemma_warm_up(c: Seq<u64>, i: int)
    requires
        0 <= i <= 4,
    ensures
        vel_at(c, i) == POS_ZERO_BITS,
        raw_at(c, i) == POS_ZERO_BITS,
{
}

/// Short input: a channel of at most five samples lies entirely in the
/// warm-up region, so both filter recursions yield zero everywhere on it.
pub proof fn lemma_short_input(c: Seq<u64>)
    requires
        c.len() <= 5,
    ensures
        forall|i: int| 0 <= i < c.len() ==> vel_at(c, i) == POS_ZERO_BITS,
        forall|i: int| 0 <= i < c.len() ==> raw_at(c, i) == POS_ZERO_BITS,
{
    assert forall|i: int| 0 <= i < c.len() implies vel_at(c, i) == POS_ZERO_BITS by {
        lemma_warm_up(c, i);
    }
    assert forall|i: int| 0 <= i < c.len() implies raw_at(c, i) == POS_ZERO_BITS by {
        lemma_warm_up(c, i);
    }
}

/// Determinism: the derived channels are mathematical functions of the
/// acceleration channels and the sampling interval. Two records with equal
/// channels are taken by `integrate`, whose contract pins every output
/// channel to these functions, to equal derived channels.
pub proof fn lemma_integrate_deterministic(d1: ParseData, d2: ParseData, dt: u64)
    requires
        d1.ns_acc@ == d2.ns_acc@,
        d1.ew_acc@ == d2.ew_acc@,
        d1.ud_acc@ == d2.ud_acc@,
    ensures
        vel_seq(d1.ns_acc@) == vel_seq(d2.ns_acc@),
        vel_seq(d1.ew_acc@) == vel_seq(d2.ew_acc@),
        vel_seq(d1.ud_acc@) == vel_seq(d2.ud_acc@),
        disp_seq(vel_seq(d1.ns_acc@), dt) == disp_seq(vel_seq(d2.ns_acc@), dt),
        disp_seq(vel_seq(d1.ew_acc@), dt) == disp_seq(vel_seq(d2.ew_acc@), dt),
        disp_seq(vel_seq(d1.ud_acc@), dt) == disp_seq(vel_seq(d2.ud_acc@), dt),
{
}

/// Per-axis independence: two records that agree on one axis channel are
/// taken to identical derived channels for that axis, whatever the other
/// two channels hold. The contract of `integrate` pins each derived channel
/// to `vel_seq` and `disp_seq` of its own axis alone, so permuting or
/// zeroing one axis cannot change the output of another.
pub proof fn lemma_axis_independence(d1: ParseData, d2: ParseData, dt: u64)
    requires
        d1.ew_acc@ == d2.ew_acc@,
    ensures
        vel_seq(d1.ew_acc@) == vel_seq(d2.ew_acc@),
        disp_seq(vel_seq(d1.ew_acc@), dt) == disp_seq(vel_seq(d2.ew_acc@), dt),
{
}

/// Displacement scaling: the raw recursion takes no part of the sampling
/// interval, so two displacement passes over one velocity channel with two
/// intervals share the same raw sequence and differ only in the final
/// multiply by the interval. That the quotient of the two outputs is the
/// quotient of the intervals is a property of that one double multiply and
/// is exercised by a test.
pub proof fn lemma_displacement_scaling_structure(v: Seq<u64>, dt1: u64, dt2: u64)
    ensures
        forall|i: int| 0 <= i < v.len() ==> disp_seq(v, dt1)[i] == mul64(raw_at(v, i), dt1),
        forall|i: int| 0 <= i < v.len() ==> disp_seq(v, dt2)[i] == mul64(raw_at(v, i), dt2),
{
}

/// Applies the third-order velocity filter to one axis channel.
pub fn acceleration_to_velocity(a: &Vec<u64>) -> (v: Vec<u64>)
    ensures
        v@.len() == a@.len(),
        forall|i: int| 0 <= i < v@.len() ==> v@[i] == vel_at(a@, i),
        v@ == vel_seq(a@),
        forall|i: int| 0 <= i < v@.len() && i <= 4 ==> v@[i] == POS_ZERO_BITS,
        (forall|i: int| 0 <= i < a@.len() ==> is_zero_bits(a@[i])) ==> (forall|i: int|
            0 <= i < v@.len() ==> is_zero_bits(v@[i])),
{
    let n = a.len();
    let mut v: Vec<u64> = Vec::new();
    let mut i: usize = 0;
    while i < n
        invariant
            n == a@.len(),
            i <= n,
            v@.len() == i,
            forall|j: int| 0 <= j < i ==> v@[j] == vel_at(a@, j),
            (forall|j: int| 0 <= j < a@.len() ==> is_zero_bits(a@[j])) ==> (forall|j: int|
                0 <= j < i ==> is_zero_bits(v@[j])),
        decreases n - i,
    {
        if i <= 4 {
            v.push(POS_ZERO_BITS);
        } else {
            proof {
                lemma_coefficients_finite();
            }
            let m0 = mul_bits(B0_BITS, a[i]);
            let m1 = mul_bits(B1_BITS, a[i - 1]);
            let m2 = mul_bits(B2_BITS, a[i - 2]);
            let m3 = mul_bits(B3_BITS, a[i - 3]);
            let feed = mul_bits(G_BITS, add_bits(add_bits(add_bits(m0, m1), m2), m3));
            let f1 = mul_bits(A1_BITS, v[i - 1]);
            let f2 = mul_bits(A2_BITS, v[i - 2]);
            let f3 = mul_bits(A3_BITS, v[i - 3]);
            let back = add_bits(add_bits(f1, f2), f3);
            let vi = sub_bits(feed, back);
            proof {
                assert(vi == vel_at(a@, i as int));
            }
            v.push(vi);
        }
        i += 1;
    }
    proof {
        assert(v@ =~= vel_seq(a@));
    }
    v
}

/// Applies the second-order displacement filter to one axis velocity
/// channel and scales the result by the sampling interval `dt`.
///
/// The warm-up and all-zero clauses ask `dt` to be finite: a zero scaled by
/// a non-finite interval is no zero. Any actual sampling interval is
/// finite.
pub fn velocity_to_displacement(v: &Vec<u64>, dt: u64) -> (d: Vec<u64>)
    ensures
        d@.len() == v@.len(),
        forall|i: int| 0 <= i < d@.len() ==> d@[i] == disp_at(v@, dt, i),
        d@ == disp_seq(v@, dt),
        is_finite_bits(dt) ==> (forall|i: int|
            0 <= i < d@.len() && i <= 4 ==> is_zero_bits(d@[i])),
        is_finite_bits(dt) && (forall|i: int| 0 <= i < v@.len() ==> is_zero_bits(v@[i]))
            ==> (forall|i: int| 0 <= i < d@.len() ==> is_zero_bits(d@[i])),
{
    let n = v.len();
    let mut raw: Vec<u64> = Vec::new();
    let mut i: usize = 0;
    while i < n
        invariant
            n == v@.len(),
            i <= n,
            raw@.len() == i,
            forall|j: int| 0 <= j < i ==> raw@[j] == raw_at(v@, j),
            (forall|j: int| 0 <= j < v@.len() ==> is_zero_bits(v@[j])) ==> (forall|j: int|
                0 <= j < i ==> is_zero_bits(raw@[j])),
        decreases n - i,
    {
        if i <= 4 {
            raw.push(POS_ZERO_BITS);
        } else {
            proof {
                lemma_coefficients_finite();
            }
            let m0 = mul_bits(D0_BITS, v[i]);
            let m1 = mul_bits(D1_BITS, v[i - 1]);
            let m2 = mul_bits(D2_BITS, v[i - 2]);
            let feed = mul_bits(H_BITS, add_bits(add_bits(m0, m1), m2));
            let f1 = mul_bits(C1_BITS, raw[i - 1]);
            let f2 = mul_bits(C2_BITS, raw[i - 2]);
            let back = add_bits(f1, f2);
            let ri = sub_bits(feed, back);
            proof {
                assert(ri == raw_at(v@, i as int));
            }
            raw.push(ri);
        }
        i += 1;
    }
    let mut d: Vec<u64> = Vec::new();
    let mut k: usize = 0;
    while k < n
        invariant
            n == v@.len(),
            k <= n,
            raw@.len() == n,
            forall|j: int| 0 <= j < n ==> raw@[j] == raw_at(v@, j),
            (forall|j: int| 0 <= j < v@.len() ==> is_zero_bits(v@[j])) ==> (forall|j: int|
                0 <= j < n ==> is_zero_bits(raw@[j])),
            d@.len() == k,
            forall|j: int| 0 <= j < k ==> d@[j] == disp_at(v@, dt, j),
            is_finite_bits(dt) ==> (forall|j: int|
                0 <= j < k && j <= 4 ==> is_zero_bits(d@[j])),
            is_finite_bits(dt) && (forall|j: int| 0 <= j < v@.len() ==> is_zero_bits(v@[j]))
                ==> (forall|j: int| 0 <= j < k ==> is_zero_bits(d@[j])),
        decreases n - k,
    {
        let dk = mul_bits(raw[k], dt);
        d.push(dk);
        k += 1;
    }
    proof {
        assert(d@ =~= disp_seq(v@, dt));
    }
    d
}

/// Runs the velocity filter independently on the three axis channels.
pub fn acc_to_vel(ns_acc: &Vec<u64>, ew_acc: &Vec<u64>, ud_acc: &Vec<u64>) -> (r: (
    Vec<u64>,
    Vec<u64>,
    Vec<u64>,
))
    requires
        ns_acc@.len() == ew_acc@.len(),
        ns_acc@.len() == ud_acc@.len(),
    ensures
        r.0@ == vel_seq(ns_acc@),
        r.1@ == vel_seq(ew_acc@),
        r.2@ == vel_seq(ud_acc@),
        r.0@.len() == ns_acc@.len(),
        r.1@.len() == ew_acc@.len(),
        r.2@.len() == ud_acc@.len(),
{
    let ns_vel = acceleration_to_velocity(ns_acc);
    let ew_vel = acceleration_to_velocity(ew_acc);
    let ud_vel = acceleration_to_velocity(ud_acc);
    (ns_vel, ew_vel, ud_vel)
}

/// Runs the displacement filter independently on the three axis velocity
/// channels, with one shared sampling interval.
pub fn vel_to_disp(ns_vel: &Vec<u64>, ew_vel: &Vec<u64>, ud_vel: &Vec<u64>, dt: u64) -> (r: (
    Vec<u64>,
    Vec<u64>,
    Vec<u64>,
))
    requires
        ns_vel@.len() == ew_vel@.len(),
        ns_vel@.len() == ud_vel@.len(),
    ensures
        r.0@ == disp_seq(ns_vel@, dt),
        r.1@ == disp_seq(ew_vel@, dt),
        r.2@ == disp_seq(ud_vel@, dt),
        r.0@.len() == ns_vel@.len(),
        r.1@.len() == ew_vel@.len(),
        r.2@.len() == ud_vel@.len(),
{
    let ns_dist = velocity_to_displacement(ns_vel, dt);
    let ew_dist = velocity_to_displacement(ew_vel, dt);
    let ud_dist = velocity_to_displacement(ud_vel, dt);
    (ns_dist, ew_dist, ud_dist)
}

/// Copies one channel sample for sample.
fn copy_channel(c: &Vec<u64>) -> (r: Vec<u64>)
    ensures
        r@ == c@,
{
    let n = c.len();
    let mut r: Vec<u64> = Vec::new();
    let mut i: usize = 0;
    while i < n
        invariant
            n == c@.len(),
            i <= n,
            r@.len() == i,
            forall|j: int| 0 <= j < i ==> r@[j] == c@[j],
        decreases n - i,
    {
        r.push(c[i]);
        i += 1;
    }
    proof {
        assert(r@ =~= c@);
    }
    r
}

/// Derives the six velocity and displacement channels from a parsed record
/// and assembles the enriched record, carrying the metadata and the
/// acceleration channels through unchanged.
pub fn integrate(data: &ParseData, dt: u64) -> (r: PlotData)
    requires
        data.well_formed(),
    ensures
        r.file_name@ == data.file_name@,
        r.title@ == data.title@,
        r.rate@ == data.rate@,
        r.unit@ == data.unit@,
        r.time@ == data.time@,
        r.ns_acc@ == data.ns_acc@,
        r.ew_acc@ == data.ew_acc@,
        r.ud_acc@ == data.ud_acc@,
        r.ns_vel@ == vel_seq(data.ns_acc@),
        r.ew_vel@ == vel_seq(data.ew_acc@),
        r.ud_vel@ == vel_seq(data.ud_acc@),
        r.ns_dist@ == disp_seq(vel_seq(data.ns_acc@), dt),
        r.ew_dist@ == disp_seq(vel_seq(data.ew_acc@), dt),
        r.ud_dist@ == disp_seq(vel_seq(data.ud_acc@), dt),
        r.well_formed(),
{
    let (ns_vel, ew_vel, ud_vel) = acc_to_vel(&data.ns_acc, &data.ew_acc, &data.ud_acc);
    let (ns_dist, ew_dist, ud_dist) = vel_to_disp(&ns_vel, &ew_vel, &ud_vel, dt);
    PlotData {
        file_name: data.file_name.clone(),
        title: data.title.clone(),
        rate: data.rate.clone(),
        unit: data.unit.clone(),
        time: data.time.clone(),
        ns_acc: copy_channel(&data.ns_acc),
        ew_acc: copy_channel(&data.ew_acc),
        ud_acc: copy_channel(&data.ud_acc),
        ns_vel,
        ew_vel,
        ud_vel,
        ns_dist,
        ew_dist,
        ud_dist,
    }
}

} // verus!
