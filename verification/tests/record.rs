use roundtrip_tester::{is_nan, is_zero, same_number, Record};

fn samples() -> Vec<f64> {
    vec![
        0.0,
        -0.0,
        0.69,
        -0.69,
        1.0,
        -1.0,
        f64::MIN_POSITIVE,
        f64::from_bits(1),
        f64::from_bits(0x8000_0000_0000_0001),
        f64::MAX,
        f64::MIN,
        f64::INFINITY,
        f64::NEG_INFINITY,
        f64::NAN,
        f64::from_bits(0x7ff0_0000_0000_0001),
        f64::from_bits(0xfff0_0000_0000_0001),
        f64::from_bits(0xffff_ffff_ffff_ffff),
        f64::from_bits(0x7fef_ffff_ffff_ffff),
    ]
}

#[test]
fn is_nan_agrees_with_the_double() {
    for x in samples() {
        assert_eq!(is_nan(x.to_bits()), x.is_nan(), "{:#x}", x.to_bits());
    }
    assert!(!is_nan(0x7ff0_0000_0000_0000));
    assert!(is_nan(0x7ff0_0000_0000_0001));
    assert!(!is_nan(0xfff0_0000_0000_0000));
    assert!(is_nan(0xfff0_0000_0000_0001));
}

#[test]
fn is_zero_agrees_with_the_double() {
    for x in samples() {
        assert_eq!(is_zero(x.to_bits()), x == 0.0, "{:#x}", x.to_bits());
    }
    assert!(is_zero(0));
    assert!(is_zero(0x8000_0000_0000_0000));
    assert!(!is_zero(1));
}

#[test]
fn same_number_agrees_with_the_double() {
    for a in samples() {
        for b in samples() {
            assert_eq!(same_number(a.to_bits(), b.to_bits()), a == b, "{:#x} {:#x}", a.to_bits(), b.to_bits());
        }
    }
}

#[test]
fn records_compare_field_by_field() {
    let base = Record { name: "n".to_string(), age: 5, prob: 0.69f64.to_bits(), data: vec![31, 69] };
    assert_eq!(base, base.clone());
    assert_ne!(base, Record { name: "m".to_string(), ..base.clone() });
    assert_ne!(base, Record { age: 6, ..base.clone() });
    assert_ne!(base, Record { prob: 0.7f64.to_bits(), ..base.clone() });
    assert_ne!(base, Record { data: vec![31], ..base.clone() });
    assert_ne!(base, Record { data: vec![31, 70], ..base.clone() });
    assert_ne!(base, Record { data: vec![31, 69, 0], ..base.clone() });
}

#[test]
fn records_compare_the_double_as_a_number() {
    let plus = Record { name: String::new(), age: 0, prob: 0.0f64.to_bits(), data: vec![] };
    let minus = Record { prob: (-0.0f64).to_bits(), ..plus.clone() };
    assert_eq!(plus, minus);
    let nan = Record { prob: f64::NAN.to_bits(), ..plus.clone() };
    assert_ne!(nan, nan.clone());
}

#[test]
fn clone_keeps_every_field() {
    let base = Record { name: "n".to_string(), age: u128::MAX, prob: 7, data: vec![1, -2] };
    let copy = base.clone();
    assert_eq!(copy.name, "n");
    assert_eq!(copy.age, u128::MAX);
    assert_eq!(copy.prob, 7);
    assert_eq!(copy.data, vec![1, -2]);
}
