use seismo_integrate::csv_parser::build_record;
use seismo_integrate::integral::integrate;
use seismo_integrate::integral::DEFAULT_DT_BITS;

fn row(fields: &[&str]) -> Vec<String> {
    fields.iter().map(|f| f.to_string()).collect()
}

fn header() -> Vec<Vec<String>> {
    vec![
        row(&["SITE CODE=ABC123"]),
        row(&["SAMPLING RATE =100Hz"]),
        row(&[" UNIT  =gal"]),
        row(&["INITIAL TIME =2024/03/11 10:00:00"]),
        row(&["LAT. = 35.0"]),
        row(&["LONG. = 139.0"]),
        row(&["HEIGHT = 10"]),
    ]
}

#[test]
fn parses_markers_and_data_rows() {
    let mut rows = header();
    rows.push(row(&["1.5", "-2.25", "0.125"]));
    rows.push(row(&["3", "4.5", "-0.5"]));
    let d = build_record("site01", &rows).unwrap();
    assert_eq!(d.file_name, "site01");
    assert_eq!(d.title, "SITE CODE=ABC123");
    assert_eq!(d.rate, "SAMPLING RATE =100Hz");
    assert_eq!(d.unit, " UNIT  =gal");
    assert_eq!(d.time, "INITIAL TIME =2024/03/11 10:00:00");
    let z = 0.0f64.to_bits();
    assert_eq!(d.ns_acc, vec![z, z, z, 1.5f64.to_bits(), 3.0f64.to_bits()]);
    assert_eq!(d.ew_acc, vec![z, z, z, (-2.25f64).to_bits(), 4.5f64.to_bits()]);
    assert_eq!(d.ud_acc, vec![z, z, z, 0.125f64.to_bits(), (-0.5f64).to_bits()]);
}

#[test]
fn channels_are_seeded_with_three_zeros_without_data() {
    let d = build_record("empty", &header()).unwrap();
    assert_eq!(d.ns_acc.len(), 3);
    assert_eq!(d.ew_acc.len(), 3);
    assert_eq!(d.ud_acc.len(), 3);
    for b in d.ns_acc.iter().chain(d.ew_acc.iter()).chain(d.ud_acc.iter()) {
        assert_eq!(f64::from_bits(*b), 0.0);
    }
}

#[test]
fn rows_before_the_header_boundary_are_skipped() {
    // A numeric row below index seven sits in the header block and
    // contributes no samples; the row at index seven is the first data row.
    let rows = vec![
        row(&["SITE CODE=ABC123"]),
        row(&["SAMPLING RATE =100Hz"]),
        row(&[" UNIT  =gal"]),
        row(&["INITIAL TIME =2024/03/11 10:00:00"]),
        row(&["9.75", "9.75", "9.75"]),
        row(&["LAT. = 35.0"]),
        row(&["LONG. = 139.0"]),
        row(&["1", "2", "3"]),
    ];
    let d = build_record("x", &rows).unwrap();
    assert_eq!(d.ns_acc.len(), 4);
    assert_eq!(f64::from_bits(d.ns_acc[3]), 1.0);
}

#[test]
fn later_marker_overwrites_earlier_one() {
    let mut rows = header();
    rows.push(row(&["SITE CODE=XYZ999"]));
    let d = build_record("x", &rows).unwrap();
    assert_eq!(d.title, "SITE CODE=XYZ999");
    // A marker row past the header boundary is metadata, not data.
    assert_eq!(d.ns_acc.len(), 3);
}

#[test]
fn empty_rows_are_skipped() {
    let mut rows = header();
    rows.push(row(&[]));
    rows.push(row(&["2.5", "2.5", "2.5"]));
    let d = build_record("x", &rows).unwrap();
    assert_eq!(d.ns_acc.len(), 4);
    assert_eq!(f64::from_bits(d.ns_acc[3]), 2.5);
}

#[test]
fn first_bad_field_is_reported() {
    let mut rows = header();
    rows.push(row(&["1.0", "2.0", "3.0"]));
    rows.push(row(&["4.0", "not-a-number", "5.0"]));
    rows.push(row(&["worse", "6.0", "7.0"]));
    let e = build_record("x", &rows).unwrap_err();
    assert_eq!(e.row, 8);
    assert_eq!(e.field, 1);
}

#[test]
fn parsed_record_feeds_the_integration_engine() {
    let mut rows = header();
    for i in 0..40 {
        let x = format!("{}", (i * 3 % 11) as f64 / 4.0);
        rows.push(row(&[&x, "0", "0.5"]));
    }
    let d = build_record("run", &rows).unwrap();
    let r = integrate(&d, DEFAULT_DT_BITS);
    assert_eq!(r.ns_vel.len(), 43);
    assert_eq!(r.ns_dist.len(), 43);
    for i in 0..5 {
        assert_eq!(f64::from_bits(r.ns_vel[i]), 0.0);
    }
}
