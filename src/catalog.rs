//! Walking the catalog: the ordered sequence of every curve, and a cursor
//! over it.
use vstd::prelude::*;

use crate::easing::{family_at, phase_at, Easing, EASING_COUNT};

verus! {

/// Every curve of the catalog, in ordinal order; the marker is not among them.
pub open spec fn catalog() -> Seq<Easing> {
    Seq::new(EASING_COUNT as nat, |i: int| Easing::from_ordinal(i as nat))
}

/// A forward-only cursor over the catalog. A fresh cursor starts at the
/// first curve; a traversal starts over with a new cursor.
pub struct Easings {
    current: Easing,
}

impl Easings {
    /// Ordinal of the next curve handed out; the catalog size once exhausted.
    pub closed spec fn position(&self) -> nat {
        self.current.ordinal_of()
    }

    /// The curves still to come, in order.
    pub open spec fn remaining(&self) -> Seq<Easing> {
        if self.position() < EASING_COUNT {
            catalog().subrange(self.position() as int, EASING_COUNT as int)
        } else {
            Seq::empty()
        }
    }

    /// A cursor at the start of the catalog.
    pub fn new() -> (r: Self)
        ensures
            r.position() == 0,
            r.remaining() == catalog(),
    {
        let r = Easings { current: Easing::SineIn };
        assert(r.remaining() =~= catalog());
        r
    }

    /// Hands out the curve at the cursor and advances, or `None` once every
    /// curve has been handed out.
    pub fn next(&mut self) -> (r: Option<Easing>)
        ensures
            old(self).position() < EASING_COUNT ==> r == Some(
                Easing::from_ordinal(old(self).position()),
            ) && final(self).position() == old(self).position() + 1,
            old(self).position() >= EASING_COUNT ==> r is None && *final(self) == *old(self),
            old(self).remaining().len() > 0 ==> r == Some(old(self).remaining()[0])
                && final(self).remaining() == old(self).remaining().drop_first(),
            old(self).remaining().len() == 0 <==> r is None,
    {
        if self.current != Easing::Max {
            let tmp = self.current;
            self.current = Easing::from(tmp.ordinal() + 1);
            assert(self.remaining() =~= old(self).remaining().drop_first());
            Some(tmp)
        } else {
            None
        }
    }
}

impl Easing {
    /// Returns an iterator over all the easing functions.
    pub fn all() -> (r: Easings)
        ensures
            r.position() == 0,
            r.remaining() == catalog(),
    {
        Easings::new()
    }
}

/// Every curve of the catalog, in ordinal order.
pub fn all_variants() -> (r: Vec<Easing>)
    ensures
        r@ == catalog(),
{
    let mut it = Easing::all();
    let mut out: Vec<Easing> = Vec::new();
    loop
        invariant
            it.position() <= EASING_COUNT,
            out@ == catalog().subrange(0, it.position() as int),
        ensures
            out@ == catalog(),
        decreases EASING_COUNT - it.position(),
    {
        match it.next() {
            Some(e) => {
                out.push(e);
            },
            None => {
                assert(out@ =~= catalog());
                break ;
            },
        }
    }
    out
}

/// The catalog is complete and stably ordered: it holds exactly
/// `EASING_COUNT` curves, none of them the marker; the curve at position `i`
/// has ordinal `i`, so the ordinals are distinct and contiguous from 0; every
/// curve goes to its ordinal and back to itself; and positions run through
/// the families in order, with the phases In, Out, InOut within each.
pub proof fn lemma_catalog_complete()
    ensures
        catalog().len() == EASING_COUNT,
        forall|i: int|
            0 <= i < EASING_COUNT ==> {
                &&& #[trigger] catalog()[i] != Easing::Max
                &&& catalog()[i].ordinal_of() == i
                &&& catalog()[i].family_of() == Some(family_at(i as nat))
                &&& catalog()[i].phase_of() == Some(phase_at(i as nat))
            },
        forall|i: int, j: int|
            0 <= i < EASING_COUNT && 0 <= j < EASING_COUNT && i != j ==> #[trigger] catalog()[i]
                != #[trigger] catalog()[j],
        forall|e: Easing|
            e != Easing::Max ==> #[trigger] e.ordinal_of() < EASING_COUNT && Easing::from_ordinal(
                e.ordinal_of(),
            ) == e && catalog()[e.ordinal_of() as int] == e,
        Easing::from_ordinal(EASING_COUNT as nat) == Easing::Max,
{
    assert forall|i: int| 0 <= i < EASING_COUNT implies {
        &&& #[trigger] catalog()[i] != Easing::Max
        &&& catalog()[i].ordinal_of() == i
        &&& catalog()[i].family_of() == Some(family_at(i as nat))
        &&& catalog()[i].phase_of() == Some(phase_at(i as nat))
    } by {
        let n = i as nat;
        assert(catalog()[i] == Easing::from_ordinal(n));
    }
    assert forall|i: int, j: int|
        0 <= i < EASING_COUNT && 0 <= j < EASING_COUNT && i != j implies #[trigger] catalog()[i]
        != #[trigger] catalog()[j] by {
        assert(catalog()[i].ordinal_of() == i);
        assert(catalog()[j].ordinal_of() == j);
    }
}

} // verus!
