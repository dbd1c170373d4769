use watertri::sign::{has_zero, is_degenerate, is_mixed};
use watertri::{outcome, Intersection, Sign};

/// How `x` compares with zero, from the comparisons of its scalar type.
fn sign_of<S: cgmath::BaseFloat>(x: S) -> Sign {
    Sign::from_tests(x < S::zero(), x > S::zero(), x == S::zero())
}

const ALL: [Sign; 4] = [Sign::Negative, Sign::Zero, Sign::Positive, Sign::Unordered];

fn flipped(s: Sign) -> Sign {
    match s {
        Sign::Negative => Sign::Positive,
        Sign::Positive => Sign::Negative,
        other => other,
    }
}

#[test]
fn sign_from_each_combination_of_tests() {
    // (below, above, equal)
    assert_eq!(Sign::from_tests(true, false, false), Sign::Negative);
    assert_eq!(Sign::from_tests(false, true, false), Sign::Positive);
    assert_eq!(Sign::from_tests(false, false, true), Sign::Zero);
    assert_eq!(Sign::from_tests(false, false, false), Sign::Unordered);
    // what no lawful order answers: the first yes decides
    assert_eq!(Sign::from_tests(true, true, false), Sign::Negative);
    assert_eq!(Sign::from_tests(true, false, true), Sign::Negative);
    assert_eq!(Sign::from_tests(true, true, true), Sign::Negative);
    assert_eq!(Sign::from_tests(false, true, true), Sign::Positive);
}

#[test]
fn sign_of_double_precision_values() {
    assert_eq!(sign_of(-1.5f64), Sign::Negative);
    assert_eq!(sign_of(f64::NEG_INFINITY), Sign::Negative);
    assert_eq!(sign_of(-f64::MIN_POSITIVE), Sign::Negative);
    assert_eq!(sign_of(-5.0e-324f64), Sign::Negative);
    assert_eq!(sign_of(0.0f64), Sign::Zero);
    assert_eq!(sign_of(-0.0f64), Sign::Zero);
    assert_eq!(sign_of(5.0e-324f64), Sign::Positive);
    assert_eq!(sign_of(2.0f64), Sign::Positive);
    assert_eq!(sign_of(f64::INFINITY), Sign::Positive);
    assert_eq!(sign_of(f64::NAN), Sign::Unordered);
}

#[test]
fn sign_of_single_precision_values() {
    assert_eq!(sign_of(-1.5f32), Sign::Negative);
    assert_eq!(sign_of(-0.0f32), Sign::Zero);
    assert_eq!(sign_of(1.0e-45f32), Sign::Positive);
    assert_eq!(sign_of(f32::NAN), Sign::Unordered);
}

#[test]
fn has_zero_on_every_combination() {
    for &u in ALL.iter() {
        for &v in ALL.iter() {
            for &w in ALL.iter() {
                let expected = u == Sign::Zero || v == Sign::Zero || w == Sign::Zero;
                assert_eq!(has_zero(u, v, w), expected);
            }
        }
    }
}

#[test]
fn is_mixed_on_every_combination() {
    for &u in ALL.iter() {
        for &v in ALL.iter() {
            for &w in ALL.iter() {
                let negative = [u, v, w].contains(&Sign::Negative);
                let positive = [u, v, w].contains(&Sign::Positive);
                assert_eq!(is_mixed(u, v, w), negative && positive);
            }
        }
    }
}

#[test]
fn is_mixed_named_cases() {
    assert!(!is_mixed(Sign::Negative, Sign::Negative, Sign::Negative));
    assert!(!is_mixed(Sign::Positive, Sign::Positive, Sign::Positive));
    assert!(is_mixed(Sign::Negative, Sign::Positive, Sign::Positive));
    assert!(is_mixed(Sign::Positive, Sign::Positive, Sign::Negative));
    assert!(is_mixed(Sign::Zero, Sign::Positive, Sign::Negative));
    // a zero sides with both signs
    assert!(!is_mixed(Sign::Zero, Sign::Positive, Sign::Positive));
    assert!(!is_mixed(Sign::Negative, Sign::Zero, Sign::Negative));
    assert!(!is_mixed(Sign::Zero, Sign::Zero, Sign::Negative));
    assert!(!is_mixed(Sign::Zero, Sign::Zero, Sign::Zero));
    // what is not a number is on neither side
    assert!(!is_mixed(Sign::Unordered, Sign::Unordered, Sign::Unordered));
    assert!(!is_mixed(Sign::Unordered, Sign::Positive, Sign::Positive));
    assert!(is_mixed(Sign::Unordered, Sign::Positive, Sign::Negative));
}

#[test]
fn is_degenerate_only_for_zero() {
    assert!(is_degenerate(Sign::Zero));
    assert!(!is_degenerate(Sign::Negative));
    assert!(!is_degenerate(Sign::Positive));
    assert!(!is_degenerate(Sign::Unordered));
}

#[test]
fn sign_test_ignores_vertex_order_and_winding() {
    for &u in ALL.iter() {
        for &v in ALL.iter() {
            for &w in ALL.iter() {
                let m = is_mixed(u, v, w);
                assert_eq!(is_mixed(v, w, u), m);
                assert_eq!(is_mixed(v, u, w), m);
                assert_eq!(is_mixed(flipped(u), flipped(v), flipped(w)), m);
                assert_eq!(has_zero(flipped(u), flipped(v), flipped(w)), has_zero(u, v, w));
            }
        }
    }
}

#[test]
fn replacing_a_sign_by_zero_never_rejects() {
    for &u in ALL.iter() {
        for &v in ALL.iter() {
            for &w in ALL.iter() {
                if !is_mixed(u, v, w) {
                    assert!(!is_mixed(Sign::Zero, v, w));
                    assert!(!is_mixed(u, Sign::Zero, w));
                    assert!(!is_mixed(u, v, Sign::Zero));
                }
            }
        }
    }
}

#[test]
fn outcome_on_every_combination() {
    for &u in ALL.iter() {
        for &v in ALL.iter() {
            for &w in ALL.iter() {
                for &det in ALL.iter() {
                    let hit = Intersection { t: 5.0f64, u: 0.25, v: 0.25, w: 0.5 };
                    let negative = [u, v, w].contains(&Sign::Negative);
                    let positive = [u, v, w].contains(&Sign::Positive);
                    let expected = !(negative && positive) && det != Sign::Zero;
                    let r = outcome(u, v, w, det, hit);
                    assert_eq!(r.is_some(), expected);
                    if let Some(h) = r {
                        assert_eq!((h.t, h.u, h.v, h.w), (5.0, 0.25, 0.25, 0.5));
                    }
                }
            }
        }
    }
}

#[test]
fn outcome_named_cases() {
    let hit = || Intersection { t: 1.0f32, u: 0.5, v: 0.5, w: 0.0 };
    // all on one side
    assert!(outcome(Sign::Negative, Sign::Negative, Sign::Negative, Sign::Negative, hit()).is_some());
    assert!(outcome(Sign::Positive, Sign::Positive, Sign::Positive, Sign::Positive, hit()).is_some());
    // on an edge, on a vertex
    assert!(outcome(Sign::Positive, Sign::Positive, Sign::Zero, Sign::Positive, hit()).is_some());
    assert!(outcome(Sign::Zero, Sign::Zero, Sign::Negative, Sign::Negative, hit()).is_some());
    // outside
    assert!(outcome(Sign::Negative, Sign::Positive, Sign::Positive, Sign::Positive, hit()).is_none());
    assert!(outcome(Sign::Positive, Sign::Zero, Sign::Negative, Sign::Zero, hit()).is_none());
    // parallel to the plane, or no area
    assert!(outcome(Sign::Zero, Sign::Zero, Sign::Zero, Sign::Zero, hit()).is_none());
    assert!(outcome(Sign::Positive, Sign::Positive, Sign::Positive, Sign::Zero, hit()).is_none());
    // not numbers: neither mixed nor zero
    let r = outcome(Sign::Unordered, Sign::Unordered, Sign::Unordered, Sign::Unordered, hit());
    assert!(r.is_some());
}

#[test]
fn outcome_hands_the_hit_on_unchanged() {
    let r = outcome(
        Sign::Negative,
        Sign::Negative,
        Sign::Negative,
        Sign::Negative,
        Intersection { t: -5.0f64, u: 0.125, v: 0.375, w: 0.5 },
    )
    .unwrap();
    assert_eq!(r.t, -5.0);
    assert_eq!(r.u, 0.125);
    assert_eq!(r.v, 0.375);
    assert_eq!(r.w, 0.5);
}
