//! Turning freshly spawned decals into projected decals.
use vstd::prelude::*;

verus! {

/// The decals of `spawned` whose material was found, each paired with that
/// material, in the order in which they were spawned.
///
/// Each entry of `spawned` is a decal together with the material its handle
/// resolved to, or `None` where the material is not (yet) loaded.
pub open spec fn resolved<E, M>(spawned: Seq<(E, Option<M>)>) -> Seq<(E, M)>
    decreases spawned.len(),
{
    if spawned.len() == 0 {
        Seq::empty()
    } else {
        let earlier = resolved(spawned.drop_last());
        match spawned.last().1 {
            Some(m) => earlier.push((spawned.last().0, m)),
            None => earlier,
        }
    }
}

/// Picks the decals that can be converted now: those whose material was
/// found. A decal whose material is missing is skipped.
pub fn resolved_decals<E, M>(spawned: Vec<(E, Option<M>)>) -> (r: Vec<(E, M)>)
    ensures
        r@ == resolved(spawned@),
{
    let ghost all = spawned@;
    let mut out: Vec<(E, M)> = Vec::new();
    for item in it: spawned.into_iter()
        invariant
            it.seq() == all,
            out@ == resolved(all.take(it.index() as int)),
    {
        let ghost i = it.index() as int;
        proof {
            assert(all.take(i + 1).drop_last() =~= all.take(i));
        }
        let (decal, material) = item;
        match material {
            Some(m) => out.push((decal, m)),
            None => {},
        }
    }
    proof {
        assert(all.take(all.len() as int) =~= all);
    }
    out
}

} // verus!
