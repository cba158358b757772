use pipewire_capture::seconds::Seconds;

fn seconds(value: f64) -> Seconds {
    Seconds {
        bits: value.to_bits(),
    }
}

#[test]
fn order_is_that_of_floating_point() {
    let values = [
        f64::NEG_INFINITY,
        f64::MIN,
        -1.0,
        -f64::MIN_POSITIVE,
        -5e-324,
        -0.0,
        0.0,
        5e-324,
        f64::MIN_POSITIVE,
        0.1,
        0.25,
        0.25000000000000006,
        1.0,
        3.5,
        f64::MAX,
        f64::INFINITY,
        f64::NAN,
    ];
    for a in values {
        for b in values {
            assert_eq!(seconds(a).less_than(seconds(b)), a < b);
        }
    }
}

#[test]
fn lengths_are_finite_and_not_negative() {
    for value in [0.0, -0.0, 5e-324, 0.25, 3600.0, f64::MAX] {
        assert!(seconds(value).is_finite());
        assert!(seconds(value).is_valid_length());
    }
    for value in [f64::NAN, -f64::NAN, f64::INFINITY, f64::NEG_INFINITY] {
        assert!(!seconds(value).is_finite());
        assert!(!seconds(value).is_valid_length());
    }
    for value in [-5e-324, -0.25, f64::MIN] {
        assert!(seconds(value).is_finite());
        assert!(!seconds(value).is_valid_length());
    }
}
