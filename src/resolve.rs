//! Choosing the concrete version that a requirement resolves to.
use crate::requirement::VersionRequirement;
use crate::version::{compare, lemma_precedence_flip, lemma_ranks_at_most_trans, ranks_at_most, ConcreteVersion};
use std::cmp::Ordering;
use vstd::prelude::*;

verus! {

/// Why a requirement could not be resolved.
#[derive(Debug, Clone, PartialEq, Eq)]
pub enum ResolveError {
    /// No available version satisfies the requirement.
    NoMatchingVersion,
    /// The install collaborator failed; its message is kept as it was.
    InstallFailed(String),
}

/// Some version in `available` satisfies `req`.
pub open spec fn any_admitted(req: &VersionRequirement, available: Seq<ConcreteVersion>) -> bool {
    exists|i: int| 0 <= i < available.len() && req.admits(#[trigger] available[i]@)
}

/// Entry `i` satisfies `req` and ranks at least as high as every other entry
/// that satisfies it.
pub open spec fn is_highest(req: &VersionRequirement, available: Seq<ConcreteVersion>, i: int) -> bool {
    &&& 0 <= i < available.len()
    &&& req.admits(available[i]@)
    &&& forall|j: int|
        0 <= j < available.len() && req.admits(#[trigger] available[j]@) ==> ranks_at_most(
            available[j]@,
            available[i]@,
        )
}

/// The position of the highest version in `available` that satisfies `req`
/// (the first such position among equally ranked ones), or `None` when no
/// version satisfies it.
pub fn select_highest(req: &VersionRequirement, available: &Vec<ConcreteVersion>) -> (r: Option<usize>)
    ensures
        r is None <==> !any_admitted(req, available@),
        r matches Some(i) ==> is_highest(req, available@, i as int),
{
    let mut best: Option<usize> = None;
    let mut i: usize = 0;
    while i < available.len()
        invariant
            i <= available.len(),
            best is None <==> forall|j: int| 0 <= j < i ==> !req.admits(#[trigger] available@[j]@),
            best matches Some(b) ==> {
                &&& b < i
                &&& req.admits(available@[b as int]@)
                &&& forall|j: int|
                    0 <= j < i && req.admits(#[trigger] available@[j]@) ==> ranks_at_most(
                        available@[j]@,
                        available@[b as int]@,
                    )
            },
        decreases available.len() - i,
    {
        if req.matches(&available[i]) {
            proof {
                lemma_precedence_flip(available@[i as int]@, available@[i as int]@);
            }
            match best {
                None => {
                    best = Some(i);
                },
                Some(b) => {
                    if let Ordering::Greater = compare(&available[i], &available[b]) {
                        proof {
                            let vi = available@[i as int]@;
                            let vb = available@[b as int]@;
                            lemma_precedence_flip(vi, vb);
                            assert forall|j: int|
                                0 <= j < i + 1 && req.admits(#[trigger] available@[j]@)
                                implies ranks_at_most(available@[j]@, vi) by {
                                if j < i {
                                    lemma_ranks_at_most_trans(available@[j]@, vb, vi);
                                } else {
                                    lemma_precedence_flip(vi, vi);
                                }
                            }
                        }
                        best = Some(i);
                    }
                },
            }
        }
        i += 1;
    }
    best
}

/// Resolves `req` against the versions the install collaborator offers: the
/// highest satisfying version, or `NoMatchingVersion` when none satisfies it.
pub fn resolve(req: &VersionRequirement, available: Vec<ConcreteVersion>) -> (r: Result<ConcreteVersion, ResolveError>)
    ensures
        r matches Err(e) ==> e == ResolveError::NoMatchingVersion,
        r is Err <==> !any_admitted(req, available@),
        r matches Ok(v) ==> exists|i: int| is_highest(req, available@, i) && v == available@[i],
{
    let mut available = available;
    match select_highest(req, &available) {
        None => Err(ResolveError::NoMatchingVersion),
        Some(i) => {
            let ghost before = available@;
            let v = available.swap_remove(i);
            assert(is_highest(req, before, i as int));
            Ok(v)
        },
    }
}

} // verus!
