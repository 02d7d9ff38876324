//! Which sphere of influence holds a position.
//!
//! Around each body that orbits another lies a sphere within which its own
//! gravity dominates. A position belongs to the innermost sphere that holds
//! it: among the bodies whose sphere encloses the position, the one whose
//! centre is nearest. A position that no sphere encloses belongs to the
//! central body of the system.
//!
//! This is the choice at one position. Following a trajectory from one
//! sphere into the next is not part of this crate.
use crate::num::Num;
use vstd::prelude::*;

verus! {

/// The encoding of the largest finite number.
pub const MAX_BITS: u64 = 0x7fef_ffff_ffff_ffff;

/// A body as seen from a position: how far its centre lies, and the radius
/// of its sphere of influence.
#[derive(Clone, Copy, Debug, PartialEq, Eq, Structural)]
pub struct Candidate {
    pub distance: Num,
    pub radius: Num,
}

impl Candidate {
    /// The position lies strictly inside the sphere, at a distance below the
    /// largest finite number. A NaN on either side encloses nothing.
    pub open spec fn encloses(self) -> bool {
        self.distance.less_than(self.radius) && self.distance.less_than(Num { bits: MAX_BITS })
    }

    /// Whether the sphere holds the position.
    pub fn is_enclosing(self) -> (r: bool)
        ensures
            r == self.encloses(),
    {
        self.distance.lt(self.radius) && self.distance.lt(Num { bits: MAX_BITS })
    }
}

/// `i` is the body to which the position belongs: its sphere encloses the
/// position, no enclosing sphere has a nearer centre, and of several at the
/// same distance it is the first.
pub open spec fn is_innermost(bodies: Seq<Candidate>, i: int) -> bool {
    &&& 0 <= i < bodies.len()
    &&& bodies[i].encloses()
    &&& forall|j: int|
        0 <= j < bodies.len() && (#[trigger] bodies[j]).encloses() ==> !bodies[j].distance.less_than(
            bodies[i].distance,
        )
    &&& forall|j: int|
        0 <= j < i && (#[trigger] bodies[j]).encloses() ==> bodies[i].distance.less_than(
            bodies[j].distance,
        )
}

/// No sphere encloses the position.
pub open spec fn none_encloses(bodies: Seq<Candidate>) -> bool {
    forall|j: int| 0 <= j < bodies.len() ==> !(#[trigger] bodies[j]).encloses()
}

/// Finds the body to whose sphere of influence a position belongs, as an
/// index into `bodies`; `None` where the position lies in no sphere and
/// belongs to the central body.
pub fn find_soi_at_position(bodies: &Vec<Candidate>) -> (r: Option<usize>)
    ensures
        match r {
            Some(i) => is_innermost(bodies@, i as int),
            None => none_encloses(bodies@),
        },
{
    let mut best: Option<usize> = None;
    let mut k: usize = 0;
    while k < bodies.len()
        invariant
            k <= bodies.len(),
            match best {
                Some(i) => i < k && is_innermost(bodies@.take(k as int), i as int),
                None => none_encloses(bodies@.take(k as int)),
            },
        decreases bodies.len() - k,
    {
        let ghost seen = bodies@.take(k as int);
        let ghost next = bodies@.take(k + 1);
        let body: Candidate = bodies[k];
        assert(next[k as int] == body);
        assert(forall|j: int| 0 <= j < k ==> next[j] == seen[j]);
        if body.is_enclosing() {
            match best {
                Some(i) => {
                    if body.distance.lt(bodies[i].distance) {
                        best = Some(k);
                    }
                },
                None => {
                    best = Some(k);
                },
            }
        }
        k = k + 1;
    }
    assert(bodies@.take(k as int) == bodies@);
    best
}

/// The answer is determined: no two bodies are both the innermost.
pub proof fn lemma_innermost_unique(bodies: Seq<Candidate>, i: int, j: int)
    requires
        is_innermost(bodies, i),
        is_innermost(bodies, j),
    ensures
        i == j,
{
    if i < j {
        assert(bodies[i].encloses());
        assert(bodies[j].distance.less_than(bodies[i].distance));
        assert(!bodies[i].distance.less_than(bodies[i].distance));
    } else if j < i {
        assert(bodies[j].encloses());
        assert(bodies[i].distance.less_than(bodies[j].distance));
    }
}

/// A body is found exactly when some sphere encloses the position.
pub proof fn lemma_found_iff_enclosed(bodies: Seq<Candidate>, i: int)
    requires
        is_innermost(bodies, i),
    ensures
        !none_encloses(bodies),
{
    assert(bodies[i].encloses());
}

} // verus!
