use tantivy_node::num::u53;
use tantivy_node::num::HostNumber;
use tantivy_node::num::Narrowed;
use tantivy_node::num::Project;
use tantivy_node::num::ProjectionError;
use tantivy_node::num::U53_MAX;

fn host(x: f64) -> HostNumber {
    HostNumber::from_bits(x.to_bits())
}

fn as_u53(x: f64) -> Result<u64, String> {
    let projected: Result<u53, ProjectionError> = host(x).project();
    projected.map(u64::from).map_err(|error| error.0)
}

#[test]
fn u53_new_keeps_value() {
    let a = u53::new(7);
    let b = u53::new(7);
    assert!(a == b);
    assert_eq!(u64::from(a), 7);
    assert!(u53::new(3) < u53::new(4));
    assert_eq!(u64::from(u53::new(U53_MAX)), 9007199254740991);
}

#[test]
fn host_number_keeps_its_bits() {
    assert_eq!(HostNumber::from_bits(0x4045_0000_0000_0000).to_bits(), 0x4045_0000_0000_0000);
    assert_eq!(f64::from_bits(host(42.0).to_bits()), 42.0);
}

#[test]
fn narrow_tells_integers_from_the_rest() {
    assert_eq!(host(0.0).narrow(10), Narrowed::Value(0));
    assert_eq!(host(-0.0).narrow(10), Narrowed::Value(0));
    assert_eq!(host(1.0).narrow(10), Narrowed::Value(1));
    assert_eq!(host(10.0).narrow(10), Narrowed::Value(10));
    assert_eq!(host(11.0).narrow(10), Narrowed::OutOfRange);
    assert_eq!(host(-1.0).narrow(10), Narrowed::OutOfRange);
    assert_eq!(host(0.5).narrow(10), Narrowed::NotAnInteger);
    assert_eq!(host(-0.5).narrow(10), Narrowed::NotAnInteger);
    assert_eq!(host(1.5).narrow(10), Narrowed::NotAnInteger);
    assert_eq!(host(3.0000000000000004).narrow(10), Narrowed::NotAnInteger);
    assert_eq!(host(f64::MIN_POSITIVE).narrow(10), Narrowed::NotAnInteger);
    assert_eq!(host(5e-324).narrow(10), Narrowed::NotAnInteger);
    assert_eq!(host(f64::NAN).narrow(10), Narrowed::NotAnInteger);
    assert_eq!(host(f64::INFINITY).narrow(10), Narrowed::OutOfRange);
    assert_eq!(host(f64::NEG_INFINITY).narrow(10), Narrowed::OutOfRange);
    assert_eq!(host(f64::MAX).narrow(u64::MAX), Narrowed::OutOfRange);
    assert_eq!(host(1e300).narrow(u64::MAX), Narrowed::OutOfRange);
    assert_eq!(host(18446744073709551616.0).narrow(u64::MAX), Narrowed::OutOfRange);
    assert_eq!(
        host(18446744073709549568.0).narrow(u64::MAX),
        Narrowed::Value(18446744073709549568)
    );
    assert_eq!(host(9007199254740992.0).narrow(u64::MAX), Narrowed::Value(9007199254740992));
    assert_eq!(host(4503599627370496.0).narrow(u64::MAX), Narrowed::Value(4503599627370496));
    assert_eq!(host(4503599627370495.5).narrow(u64::MAX), Narrowed::NotAnInteger);
}

#[test]
fn project_u53_accepts_the_whole_range() {
    assert_eq!(as_u53(0.0), Ok(0));
    assert_eq!(as_u53(-0.0), Ok(0));
    assert_eq!(as_u53(1.0), Ok(1));
    assert_eq!(as_u53(50000000.0), Ok(50000000));
    assert_eq!(as_u53(9007199254740991.0), Ok(9007199254740991));
}

#[test]
fn project_u53_rejects_what_is_out_of_range() {
    assert_eq!(as_u53(9007199254740992.0), Err("is out of range for u53".to_string()));
    assert_eq!(as_u53(-1.0), Err("is out of range for u53".to_string()));
    assert_eq!(as_u53(f64::INFINITY), Err("is out of range for u53".to_string()));
    assert_eq!(as_u53(f64::NEG_INFINITY), Err("is out of range for u53".to_string()));
}

#[test]
fn project_u53_rejects_what_is_no_integer() {
    assert_eq!(as_u53(0.5), Err("is not an integer".to_string()));
    assert_eq!(as_u53(-2.25), Err("is not an integer".to_string()));
    assert_eq!(as_u53(f64::NAN), Err("is not an integer".to_string()));
}

#[test]
fn project_narrow_types() {
    let a: Result<u32, ProjectionError> = host(4294967295.0).project();
    assert_eq!(a.unwrap(), u32::MAX);
    let b: Result<u32, ProjectionError> = host(4294967296.0).project();
    assert_eq!(b.unwrap_err().0, "is out of range for u32");
    let c: Result<u16, ProjectionError> = host(65535.0).project();
    assert_eq!(c.unwrap(), u16::MAX);
    let d: Result<u16, ProjectionError> = host(65536.0).project();
    assert_eq!(d.unwrap_err().0, "is out of range for u16");
    let e: Result<u8, ProjectionError> = host(255.0).project();
    assert_eq!(e.unwrap(), 255u8);
    let f: Result<u8, ProjectionError> = host(256.0).project();
    assert_eq!(f.unwrap_err().0, "is out of range for u8");
    let g: Result<u8, ProjectionError> = host(7.5).project();
    assert_eq!(g.unwrap_err().0, "is not an integer");
    let h: Result<u32, ProjectionError> = host(-3.0).project();
    assert_eq!(h.unwrap_err().0, "is out of range for u32");
}

#[test]
fn integers_become_the_host_numbers_that_they_are() {
    for x in [0u64, 1, 2, 3, 4, 5, 255, 256, 1000, 4294967295, 4294967296, 4503599627370495,
        4503599627370496, 4503599627370497, 9007199254740990, 9007199254740991]
    {
        let number = HostNumber::from_integer(x);
        assert_eq!(f64::from_bits(number.to_bits()), x as f64);
        assert_eq!(number.narrow(U53_MAX), Narrowed::Value(x));
        assert_eq!(HostNumber::from(u53::new(x)), number);
    }
    assert_eq!(f64::from_bits(HostNumber::from(7u8).to_bits()), 7.0);
    assert_eq!(f64::from_bits(HostNumber::from(65535u16).to_bits()), 65535.0);
    assert_eq!(f64::from_bits(HostNumber::from(u32::MAX).to_bits()), 4294967295.0);
}

#[test]
fn projection_undoes_the_conversion() {
    for x in [0u64, 1, 77, 9007199254740991] {
        let back: Result<u53, ProjectionError> = HostNumber::from(u53::new(x)).project();
        assert_eq!(u64::from(back.unwrap()), x);
    }
}
