//! Finalizer handling: a finalizer on a resource blocks its deletion until
//! removed, so the operator can clean up the remote add-on first.

use vstd::prelude::*;

use crate::resource::{strs_view, ObjectMeta};
use crate::text::str_eq;

verus! {

/// The finalizers of a resource; a resource without the field has none.
pub open spec fn spec_finalizers(meta: ObjectMeta) -> Seq<Seq<char>> {
    match meta.finalizers {
        Some(v) => strs_view(v@),
        None => Seq::empty(),
    }
}

/// Whether `f` is among the finalizers.
pub open spec fn spec_contains(fins: Seq<Seq<char>>, f: Seq<char>) -> bool {
    exists|i: int| 0 <= i < fins.len() && fins[i] == f
}

/// Whether the resource carries the given finalizer.
pub fn contains(meta: &ObjectMeta, finalizer: &str) -> (r: bool)
    ensures
        r == spec_contains(spec_finalizers(*meta), finalizer@),
{
    match &meta.finalizers {
        Some(fins) => {
            proof {
                assert(spec_finalizers(*meta) == strs_view(fins@));
            }
            let mut i: usize = 0;
            while i < fins.len()
                invariant
                    i <= fins@.len(),
                    spec_finalizers(*meta) == strs_view(fins@),
                    forall|j: int| 0 <= j < i ==> strs_view(fins@)[j] != finalizer@,
                decreases fins@.len() - i,
            {
                if str_eq(fins[i].as_str(), finalizer) {
                    assert(strs_view(fins@)[i as int] == finalizer@);
                    assert(spec_finalizers(*meta) == strs_view(fins@));
                    return true;
                }
                assert(strs_view(fins@)[i as int] != finalizer@);
                i = i + 1;
            }
            proof {
                if spec_contains(spec_finalizers(*meta), finalizer@) {
                    let ix = choose|ix: int|
                        0 <= ix < strs_view(fins@).len() && strs_view(fins@)[ix] == finalizer@;
                    assert(strs_view(fins@)[ix] == finalizer@);
                }
            }
            false
        },
        None => false,
    }
}

/// Adds the finalizer to the resource: a set union, so adding twice
/// changes nothing.  Only the finalizer list changes.
pub fn add(obj: ObjectMeta, finalizer: &str) -> (r: ObjectMeta)
    ensures
        spec_finalizers(r) == if spec_contains(spec_finalizers(obj), finalizer@) {
            spec_finalizers(obj)
        } else {
            spec_finalizers(obj).push(finalizer@)
        },
        spec_contains(spec_finalizers(r), finalizer@),
        r.namespace == obj.namespace,
        r.name == obj.name,
        r.uid == obj.uid,
        r.deletion_timestamp == obj.deletion_timestamp,
        r.owner_references == obj.owner_references,
        r.resource_version == obj.resource_version,
{
    let ghost old_fins = spec_finalizers(obj);
    let mut obj = obj;
    let present = contains(&obj, finalizer);
    if present {
        proof {
            let ix = choose|ix: int| 0 <= ix < old_fins.len() && old_fins[ix] == finalizer@;
            assert(spec_finalizers(obj)[ix] == finalizer@);
        }
        return obj;
    }
    match &mut obj.finalizers {
        Some(fins) => {
            let ghost before = strs_view(fins@);
            fins.push(finalizer.to_owned());
            proof {
                assert(strs_view(fins@) =~= before.push(finalizer@));
                assert(strs_view(fins@)[before.len() as int] == finalizer@);
            }
        },
        None => {
            let mut fins: Vec<String> = Vec::new();
            fins.push(finalizer.to_owned());
            proof {
                assert(strs_view(fins@) =~= Seq::<Seq<char>>::empty().push(finalizer@));
            }
            obj.finalizers = Some(fins);
            proof {
                assert(spec_finalizers(obj)[0] == finalizer@);
            }
        },
    }
    obj
}

/// The finalizer list without `f`.
pub open spec fn remove_str(s: Seq<Seq<char>>, f: Seq<char>) -> Seq<Seq<char>> {
    s.filter(|x: Seq<char>| x != f)
}

/// Removes every copy of the finalizer from the resource.  Only the
/// finalizer list changes, and the finalizer is gone afterwards.
pub fn remove(obj: ObjectMeta, finalizer: &str) -> (r: ObjectMeta)
    ensures
        spec_finalizers(r) == remove_str(spec_finalizers(obj), finalizer@),
        !spec_contains(spec_finalizers(r), finalizer@),
        (r.finalizers is Some) == (obj.finalizers is Some),
        r.namespace == obj.namespace,
        r.name == obj.name,
        r.uid == obj.uid,
        r.deletion_timestamp == obj.deletion_timestamp,
        r.owner_references == obj.owner_references,
        r.resource_version == obj.resource_version,
{
    let mut obj = obj;
    match &obj.finalizers {
        Some(fins) => {
            let ghost fv = strs_view(fins@);
            let mut out: Vec<String> = Vec::new();
            let mut i: usize = 0;
            proof {
                reveal(Seq::filter);
                assert(fv.take(0) =~= Seq::<Seq<char>>::empty());
                assert(strs_view(out@) =~= remove_str(fv.take(0), finalizer@));
            }
            while i < fins.len()
                invariant
                    i <= fins@.len(),
                    fv == strs_view(fins@),
                    strs_view(out@) == remove_str(fv.take(i as int), finalizer@),
                decreases fins@.len() - i,
            {
                let ghost before = strs_view(out@);
                let keep = !str_eq(fins[i].as_str(), finalizer);
                proof {
                    reveal(Seq::filter);
                    assert(fv[i as int] == fins@[i as int]@);
                    assert(fv.take(i + 1).drop_last() =~= fv.take(i as int));
                    assert(fv.take(i + 1).last() == fv[i as int]);
                }
                if keep {
                    out.push(fins[i].clone());
                    proof {
                        reveal(Seq::filter);
                        assert(strs_view(out@) =~= before.push(fv[i as int]));
                        assert(strs_view(out@) =~= remove_str(fv.take(i + 1), finalizer@));
                    }
                } else {
                    proof {
                        reveal(Seq::filter);
                        assert(strs_view(out@) =~= remove_str(fv.take(i + 1), finalizer@));
                    }
                }
                i = i + 1;
            }
            proof {
                assert(fv.take(fv.len() as int) =~= fv);
            }
            obj.finalizers = Some(out);
        },
        None => {
            proof {
                reveal(Seq::filter);
            }
        },
    }
    proof {
        let rf = spec_finalizers(obj);
        assert(!spec_contains(rf, finalizer@)) by {
            if spec_contains(rf, finalizer@) {
                let ix = choose|ix: int| 0 <= ix < rf.len() && rf[ix] == finalizer@;
                broadcast use vstd::seq_lib::group_filter_ensures;

                reveal(Seq::filter);
                assert(rf[ix] != finalizer@);
            }
        }
    }
    obj
}

} // verus!
