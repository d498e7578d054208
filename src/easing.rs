//! The catalog of easing variants: each variant is a curve family combined
//! with a phase, and has a stable ordinal in catalog order.
use vstd::prelude::*;

verus! {

/// Number of usable variants in the catalog.
pub const EASING_COUNT: usize = 30;

/// The mathematical shape shared by the three phases of a curve.
#[derive(Clone, Copy, Debug, PartialEq, Eq, Structural, Hash)]
pub enum Family {
    Sine,
    Quad,
    Cubic,
    Quart,
    Quint,
    Expo,
    Circ,
    Back,
    Elastic,
    Bounce,
}

/// Which part of the motion a curve shapes.
#[derive(Clone, Copy, Debug, PartialEq, Eq, Structural, Hash)]
pub enum Phase {
    /// Starts slow and speeds up.
    In,
    /// Starts fast and slows down.
    Out,
    /// Slow at both ends: the "in" curve on the first half, the "out" curve on the second.
    InOut,
}

/// An easing curve variant, in catalog order.
///
/// `Max` is not a curve: it is the past-the-end marker that ordinals out of
/// range map to.
#[derive(Clone, Copy, Debug, PartialEq, Eq, Structural, Hash)]
pub enum Easing {
    /// Easing function for sine easing in
    SineIn,
    /// Easing function for sine easing out
    SineOut,
    /// Easing function for sine easing in and out
    SineInOut,
    /// Easing function for quadratic easing in
    QuadIn,
    /// Easing function for quadratic easing out
    QuadOut,
    /// Easing function for quadratic easing in and out
    QuadInOut,
    /// Easing function for cubic easing in
    CubicIn,
    /// Easing function for cubic easing out
    CubicOut,
    /// Easing function for cubic easing in and out
    CubicInOut,
    /// Easing function for quartic easing in
    QuartIn,
    /// Easing function for quartic easing out
    QuartOut,
    /// Easing function for quartic easing in and out
    QuartInOut,
    /// Easing function for quintic easing in
    QuintIn,
    /// Easing function for quintic easing out
    QuintOut,
    /// Easing function for quintic easing in and out
    QuintInOut,
    /// Easing function for exponential easing in
    ExpoIn,
    /// Easing function for exponential easing out
    ExpoOut,
    /// Easing function for exponential easing in and out
    ExpoInOut,
    /// Easing function for circular easing in
    CircIn,
    /// Easing function for circular easing out
    CircOut,
    /// Easing function for circular easing in and out
    CircInOut,
    /// Easing function for back easing in
    BackIn,
    /// Easing function for back easing out
    BackOut,
    /// Easing function for back easing in and out
    BackInOut,
    /// Easing function for elastic easing in
    ElasticIn,
    /// Easing function for elastic easing out
    ElasticOut,
    /// Easing function for elastic easing in and out
    ElasticInOut,
    /// Easing function for bounce easing in
    BounceIn,
    /// Easing function for bounce easing out
    BounceOut,
    /// Easing function for bounce easing in and out
    BounceInOut,
    /// Past-the-end marker; not a usable curve.
    Max,
}

/// The family at a given position of the catalog: families come in catalog
/// order, three phases each.
pub open spec fn family_at(i: nat) -> Family {
    let f = i / 3;
    if f == 0 {
        Family::Sine
    } else if f == 1 {
        Family::Quad
    } else if f == 2 {
        Family::Cubic
    } else if f == 3 {
        Family::Quart
    } else if f == 4 {
        Family::Quint
    } else if f == 5 {
        Family::Expo
    } else if f == 6 {
        Family::Circ
    } else if f == 7 {
        Family::Back
    } else if f == 8 {
        Family::Elastic
    } else {
        Family::Bounce
    }
}

/// The phase at a given position of the catalog: In, Out, InOut in turn.
pub open spec fn phase_at(i: nat) -> Phase {
    let p = i % 3;
    if p == 0 {
        Phase::In
    } else if p == 1 {
        Phase::Out
    } else {
        Phase::InOut
    }
}

/// A family is reversible iff its forward curve is a bijection on [0, 1]:
/// every family but Back, Elastic and Bounce.
pub open spec fn family_reversible(f: Family) -> bool {
    !(f is Back || f is Elastic || f is Bounce)
}

impl Easing {
    /// Position of the variant in catalog order; the marker comes last.
    pub open spec fn ordinal_of(self) -> nat {
        match self {
            Easing::SineIn => 0,
            Easing::SineOut => 1,
            Easing::SineInOut => 2,
            Easing::QuadIn => 3,
            Easing::QuadOut => 4,
            Easing::QuadInOut => 5,
            Easing::CubicIn => 6,
            Easing::CubicOut => 7,
            Easing::CubicInOut => 8,
            Easing::QuartIn => 9,
            Easing::QuartOut => 10,
            Easing::QuartInOut => 11,
            Easing::QuintIn => 12,
            Easing::QuintOut => 13,
            Easing::QuintInOut => 14,
            Easing::ExpoIn => 15,
            Easing::ExpoOut => 16,
            Easing::ExpoInOut => 17,
            Easing::CircIn => 18,
            Easing::CircOut => 19,
            Easing::CircInOut => 20,
            Easing::BackIn => 21,
            Easing::BackOut => 22,
            Easing::BackInOut => 23,
            Easing::ElasticIn => 24,
            Easing::ElasticOut => 25,
            Easing::ElasticInOut => 26,
            Easing::BounceIn => 27,
            Easing::BounceOut => 28,
            Easing::BounceInOut => 29,
            Easing::Max => 30,
        }
    }

    /// The variant at a position of the catalog; positions out of range give the marker.
    pub open spec fn from_ordinal(i: nat) -> Easing {
        if i == 0 {
            Easing::SineIn
        } else if i == 1 {
            Easing::SineOut
        } else if i == 2 {
            Easing::SineInOut
        } else if i == 3 {
            Easing::QuadIn
        } else if i == 4 {
            Easing::QuadOut
        } else if i == 5 {
            Easing::QuadInOut
        } else if i == 6 {
            Easing::CubicIn
        } else if i == 7 {
            Easing::CubicOut
        } else if i == 8 {
            Easing::CubicInOut
        } else if i == 9 {
            Easing::QuartIn
        } else if i == 10 {
            Easing::QuartOut
        } else if i == 11 {
            Easing::QuartInOut
        } else if i == 12 {
            Easing::QuintIn
        } else if i == 13 {
            Easing::QuintOut
        } else if i == 14 {
            Easing::QuintInOut
        } else if i == 15 {
            Easing::ExpoIn
        } else if i == 16 {
            Easing::ExpoOut
        } else if i == 17 {
            Easing::ExpoInOut
        } else if i == 18 {
            Easing::CircIn
        } else if i == 19 {
            Easing::CircOut
        } else if i == 20 {
            Easing::CircInOut
        } else if i == 21 {
            Easing::BackIn
        } else if i == 22 {
            Easing::BackOut
        } else if i == 23 {
            Easing::BackInOut
        } else if i == 24 {
            Easing::ElasticIn
        } else if i == 25 {
            Easing::ElasticOut
        } else if i == 26 {
            Easing::ElasticInOut
        } else if i == 27 {
            Easing::BounceIn
        } else if i == 28 {
            Easing::BounceOut
        } else if i == 29 {
            Easing::BounceInOut
        } else {
            Easing::Max
        }
    }

    /// The family of a curve; the marker has none.
    pub open spec fn family_of(self) -> Option<Family> {
        match self {
            Easing::SineIn | Easing::SineOut | Easing::SineInOut => Some(Family::Sine),
            Easing::QuadIn | Easing::QuadOut | Easing::QuadInOut => Some(Family::Quad),
            Easing::CubicIn | Easing::CubicOut | Easing::CubicInOut => Some(Family::Cubic),
            Easing::QuartIn | Easing::QuartOut | Easing::QuartInOut => Some(Family::Quart),
            Easing::QuintIn | Easing::QuintOut | Easing::QuintInOut => Some(Family::Quint),
            Easing::ExpoIn | Easing::ExpoOut | Easing::ExpoInOut => Some(Family::Expo),
            Easing::CircIn | Easing::CircOut | Easing::CircInOut => Some(Family::Circ),
            Easing::BackIn | Easing::BackOut | Easing::BackInOut => Some(Family::Back),
            Easing::ElasticIn | Easing::ElasticOut | Easing::ElasticInOut => Some(Family::Elastic),
            Easing::BounceIn | Easing::BounceOut | Easing::BounceInOut => Some(Family::Bounce),
            Easing::Max => None,
        }
    }

    /// The phase of a curve; the marker has none.
    pub open spec fn phase_of(self) -> Option<Phase> {
        match self {
            Easing::SineIn
            | Easing::QuadIn
            | Easing::CubicIn
            | Easing::QuartIn
            | Easing::QuintIn
            | Easing::ExpoIn
            | Easing::CircIn
            | Easing::BackIn
            | Easing::ElasticIn
            | Easing::BounceIn => Some(Phase::In),
            Easing::SineOut
            | Easing::QuadOut
            | Easing::CubicOut
            | Easing::QuartOut
            | Easing::QuintOut
            | Easing::ExpoOut
            | Easing::CircOut
            | Easing::BackOut
            | Easing::ElasticOut
            | Easing::BounceOut => Some(Phase::Out),
            Easing::SineInOut
            | Easing::QuadInOut
            | Easing::CubicInOut
            | Easing::QuartInOut
            | Easing::QuintInOut
            | Easing::ExpoInOut
            | Easing::CircInOut
            | Easing::BackInOut
            | Easing::ElasticInOut
            | Easing::BounceInOut => Some(Phase::InOut),
            Easing::Max => None,
        }
    }

    /// A variant is reversible iff it is a curve of a reversible family.
    pub open spec fn is_reversible(self) -> bool {
        match self.family_of() {
            Some(f) => family_reversible(f),
            None => false,
        }
    }

    /// Position of the variant in catalog order (the marker's is the catalog size).
    pub fn ordinal(self) -> (r: usize)
        ensures
            r == self.ordinal_of(),
    {
        match self {
            Easing::SineIn => 0,
            Easing::SineOut => 1,
            Easing::SineInOut => 2,
            Easing::QuadIn => 3,
            Easing::QuadOut => 4,
            Easing::QuadInOut => 5,
            Easing::CubicIn => 6,
            Easing::CubicOut => 7,
            Easing::CubicInOut => 8,
            Easing::QuartIn => 9,
            Easing::QuartOut => 10,
            Easing::QuartInOut => 11,
            Easing::QuintIn => 12,
            Easing::QuintOut => 13,
            Easing::QuintInOut => 14,
            Easing::ExpoIn => 15,
            Easing::ExpoOut => 16,
            Easing::ExpoInOut => 17,
            Easing::CircIn => 18,
            Easing::CircOut => 19,
            Easing::CircInOut => 20,
            Easing::BackIn => 21,
            Easing::BackOut => 22,
            Easing::BackInOut => 23,
            Easing::ElasticIn => 24,
            Easing::ElasticOut => 25,
            Easing::ElasticInOut => 26,
            Easing::BounceIn => 27,
            Easing::BounceOut => 28,
            Easing::BounceInOut => 29,
            Easing::Max => EASING_COUNT,
        }
    }

    /// The family of the curve, or `None` for the marker.
    pub fn family(self) -> (r: Option<Family>)
        ensures
            r == self.family_of(),
    {
        match self {
            Easing::SineIn | Easing::SineOut | Easing::SineInOut => Some(Family::Sine),
            Easing::QuadIn | Easing::QuadOut | Easing::QuadInOut => Some(Family::Quad),
            Easing::CubicIn | Easing::CubicOut | Easing::CubicInOut => Some(Family::Cubic),
            Easing::QuartIn | Easing::QuartOut | Easing::QuartInOut => Some(Family::Quart),
            Easing::QuintIn | Easing::QuintOut | Easing::QuintInOut => Some(Family::Quint),
            Easing::ExpoIn | Easing::ExpoOut | Easing::ExpoInOut => Some(Family::Expo),
            Easing::CircIn | Easing::CircOut | Easing::CircInOut => Some(Family::Circ),
            Easing::BackIn | Easing::BackOut | Easing::BackInOut => Some(Family::Back),
            Easing::ElasticIn | Easing::ElasticOut | Easing::ElasticInOut => Some(Family::Elastic),
            Easing::BounceIn | Easing::BounceOut | Easing::BounceInOut => Some(Family::Bounce),
            Easing::Max => None,
        }
    }

    /// The phase of the curve, or `None` for the marker.
    pub fn phase(self) -> (r: Option<Phase>)
        ensures
            r == self.phase_of(),
    {
        match self {
            Easing::SineIn
            | Easing::QuadIn
            | Easing::CubicIn
            | Easing::QuartIn
            | Easing::QuintIn
            | Easing::ExpoIn
            | Easing::CircIn
            | Easing::BackIn
            | Easing::ElasticIn
            | Easing::BounceIn => Some(Phase::In),
            Easing::SineOut
            | Easing::QuadOut
            | Easing::CubicOut
            | Easing::QuartOut
            | Easing::QuintOut
            | Easing::ExpoOut
            | Easing::CircOut
            | Easing::BackOut
            | Easing::ElasticOut
            | Easing::BounceOut => Some(Phase::Out),
            Easing::SineInOut
            | Easing::QuadInOut
            | Easing::CubicInOut
            | Easing::QuartInOut
            | Easing::QuintInOut
            | Easing::ExpoInOut
            | Easing::CircInOut
            | Easing::BackInOut
            | Easing::ElasticInOut
            | Easing::BounceInOut => Some(Phase::InOut),
            Easing::Max => None,
        }
    }

    /// Returns whether the given easing function is reversible.
    pub fn reversible(self) -> (r: bool)
        ensures
            r == self.is_reversible(),
    {
        match self {
            Easing::SineIn
            | Easing::SineOut
            | Easing::SineInOut
            | Easing::QuadIn
            | Easing::QuadOut
            | Easing::QuadInOut
            | Easing::CubicIn
            | Easing::CubicOut
            | Easing::CubicInOut
            | Easing::QuartIn
            | Easing::QuartOut
            | Easing::QuartInOut
            | Easing::QuintIn
            | Easing::QuintOut
            | Easing::QuintInOut
            | Easing::ExpoIn
            | Easing::ExpoOut
            | Easing::ExpoInOut
            | Easing::CircIn
            | Easing::CircOut
            | Easing::CircInOut => true,
            _ => false,
        }
    }
}

impl From<usize> for Easing {
    /// The variant at position `value` of the catalog, or the marker when out of range.
    fn from(value: usize) -> (r: Easing)
        ensures
            r == Easing::from_ordinal(value as nat),
    {
        match value {
            0 => Easing::SineIn,
            1 => Easing::SineOut,
            2 => Easing::SineInOut,
            3 => Easing::QuadIn,
            4 => Easing::QuadOut,
            5 => Easing::QuadInOut,
            6 => Easing::CubicIn,
            7 => Easing::CubicOut,
            8 => Easing::CubicInOut,
            9 => Easing::QuartIn,
            10 => Easing::QuartOut,
            11 => Easing::QuartInOut,
            12 => Easing::QuintIn,
            13 => Easing::QuintOut,
            14 => Easing::QuintInOut,
            15 => Easing::ExpoIn,
            16 => Easing::ExpoOut,
            17 => Easing::ExpoInOut,
            18 => Easing::CircIn,
            19 => Easing::CircOut,
            20 => Easing::CircInOut,
            21 => Easing::BackIn,
            22 => Easing::BackOut,
            23 => Easing::BackInOut,
            24 => Easing::ElasticIn,
            25 => Easing::ElasticOut,
            26 => Easing::ElasticInOut,
            27 => Easing::BounceIn,
            28 => Easing::BounceOut,
            29 => Easing::BounceInOut,
            _ => Easing::Max,
        }
    }
}

impl vstd::std_specs::convert::FromSpecImpl<usize> for Easing {
    open spec fn obeys_from_spec() -> bool {
        true
    }

    open spec fn from_spec(v: usize) -> Easing {
        Easing::from_ordinal(v as nat)
    }
}

/// Error of an inverse evaluation requested for a curve that has no inverse.
#[derive(Clone, Copy, Debug, PartialEq, Eq, Structural, Hash)]
pub enum EasingError {
    /// The variant is not reversible (Back, Elastic or Bounce family), or is
    /// the past-the-end marker.
    UnsupportedInverse,
}

impl Easing {
    /// Allows an inverse evaluation only for reversible curves: Back, Elastic
    /// and Bounce curves, and the marker, get `UnsupportedInverse`.
    pub fn check_inverse(self) -> (r: Result<(), EasingError>)
        ensures
            r is Ok <==> self.is_reversible(),
            r is Err ==> r == Err::<(), EasingError>(EasingError::UnsupportedInverse),
    {
        if self.reversible() {
            Ok(())
        } else {
            Err(EasingError::UnsupportedInverse)
        }
    }
}

} // verus!
