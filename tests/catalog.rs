use emath_easing::catalog::all_variants;
use emath_easing::easing::EASING_COUNT;
use emath_easing::{Easing, EasingError, Easings, Family, Phase};

const FAMILIES: [Family; 10] = [
    Family::Sine,
    Family::Quad,
    Family::Cubic,
    Family::Quart,
    Family::Quint,
    Family::Expo,
    Family::Circ,
    Family::Back,
    Family::Elastic,
    Family::Bounce,
];

#[test]
fn all_yields_thirty_curves_in_ordinal_order() {
    let mut it = Easing::all();
    let mut seen: Vec<Easing> = Vec::new();
    while let Some(e) = it.next() {
        assert_eq!(e.ordinal(), seen.len());
        assert_ne!(e, Easing::Max);
        seen.push(e);
    }
    assert_eq!(seen.len(), 30);
    assert_eq!(seen[0], Easing::SineIn);
    assert_eq!(seen[29], Easing::BounceInOut);
    for i in 0..seen.len() {
        for j in (i + 1)..seen.len() {
            assert_ne!(seen[i], seen[j]);
        }
    }
}

#[test]
fn exhausted_cursor_stays_exhausted() {
    let mut it = Easings::new();
    for _ in 0..30 {
        assert!(it.next().is_some());
    }
    assert_eq!(it.next(), None);
    assert_eq!(it.next(), None);
}

#[test]
fn a_new_cursor_restarts_the_traversal() {
    let mut first = Easing::all();
    assert_eq!(first.next(), Some(Easing::SineIn));
    assert_eq!(first.next(), Some(Easing::SineOut));
    let mut second = Easing::all();
    assert_eq!(second.next(), Some(Easing::SineIn));
    assert_eq!(first.next(), Some(Easing::SineInOut));
}

#[test]
fn all_variants_matches_the_cursor() {
    let v = all_variants();
    assert_eq!(v.len(), EASING_COUNT);
    let mut it = Easing::all();
    for e in v.iter() {
        assert_eq!(it.next(), Some(*e));
    }
    assert_eq!(it.next(), None);
}

#[test]
fn ordinal_round_trip() {
    for i in 0..EASING_COUNT {
        let e = Easing::from(i);
        assert_ne!(e, Easing::Max);
        assert_eq!(e.ordinal(), i);
    }
    for e in all_variants() {
        assert_eq!(Easing::from(e.ordinal()), e);
    }
}

#[test]
fn out_of_range_ordinals_give_the_marker() {
    assert_eq!(Easing::from(30usize), Easing::Max);
    assert_eq!(Easing::from(31usize), Easing::Max);
    assert_eq!(Easing::from(usize::MAX), Easing::Max);
    assert_eq!(Easing::Max.ordinal(), 30);
}

#[test]
fn known_ordinals() {
    assert_eq!(Easing::from(3usize), Easing::QuadIn);
    assert_eq!(Easing::from(7usize), Easing::CubicOut);
    assert_eq!(Easing::from(15usize), Easing::ExpoIn);
    assert_eq!(Easing::from(21usize), Easing::BackIn);
    assert_eq!(Easing::from(26usize), Easing::ElasticInOut);
    assert_eq!(Easing::SineInOut.ordinal(), 2);
    assert_eq!(Easing::CircOut.ordinal(), 19);
}

#[test]
fn families_and_phases_follow_catalog_order() {
    for e in all_variants() {
        let i = e.ordinal();
        assert_eq!(e.family(), Some(FAMILIES[i / 3]));
        let phase = match i % 3 {
            0 => Phase::In,
            1 => Phase::Out,
            _ => Phase::InOut,
        };
        assert_eq!(e.phase(), Some(phase));
    }
    assert_eq!(Easing::Max.family(), None);
    assert_eq!(Easing::Max.phase(), None);
    assert_eq!(Easing::ExpoInOut.family(), Some(Family::Expo));
    assert_eq!(Easing::ExpoInOut.phase(), Some(Phase::InOut));
}

#[test]
fn reversible_families() {
    let mut count: usize = 0;
    for e in all_variants() {
        let f = e.family().unwrap();
        let expected = !matches!(f, Family::Back | Family::Elastic | Family::Bounce);
        assert_eq!(e.reversible(), expected);
        if e.reversible() {
            count += 1;
        }
    }
    assert_eq!(count, 21);
    assert!(Easing::QuadIn.reversible());
    assert!(Easing::CircInOut.reversible());
    assert!(!Easing::BackIn.reversible());
    assert!(!Easing::ElasticOut.reversible());
    assert!(!Easing::BounceInOut.reversible());
    assert!(!Easing::Max.reversible());
}

#[test]
fn inverse_gate_rejects_back_elastic_bounce() {
    for e in all_variants() {
        let r = e.check_inverse();
        if e.reversible() {
            assert_eq!(r, Ok(()));
        } else {
            assert_eq!(r, Err(EasingError::UnsupportedInverse));
        }
    }
    assert_eq!(
        Easing::BackIn.check_inverse(),
        Err(EasingError::UnsupportedInverse)
    );
    assert_eq!(
        Easing::ElasticInOut.check_inverse(),
        Err(EasingError::UnsupportedInverse)
    );
    assert_eq!(
        Easing::BounceOut.check_inverse(),
        Err(EasingError::UnsupportedInverse)
    );
    assert_eq!(Easing::Max.check_inverse(), Err(EasingError::UnsupportedInverse));
}

#[test]
fn inverse_gate_accepts_reversible_curves() {
    assert_eq!(Easing::QuadIn.check_inverse(), Ok(()));
    assert_eq!(Easing::SineOut.check_inverse(), Ok(()));
    assert_eq!(Easing::ExpoInOut.check_inverse(), Ok(()));
    assert_eq!(Easing::CircIn.check_inverse(), Ok(()));
}
