//! The storage lister's merge logic. The backend answers a listing request
//! with one bounded page and an optional continuation cursor; the caller
//! keeps requesting with the returned cursor until none comes back. This
//! module merges those pages completely and in order, and imposes the
//! deterministic oldest-first order the index build uses.

use vstd::prelude::*;
use vstd::assert_multisets_equal;

verus! {

/// Metadata of one stored object, as a listing page reports it.
pub struct ObjMeta {
    /// The object's storage key.
    pub key: String,
    /// When the object was uploaded, in milliseconds since the epoch.
    pub uploaded_millis: u64,
}

/// A listing in progress: all pages received so far, merged in page order.
pub struct Listing {
    /// The merged objects.
    pub objects: Vec<ObjMeta>,
}

impl Listing {
    /// Start a listing with no pages absorbed yet.
    pub fn new() -> (r: Listing)
        ensures
            r.objects@ == Seq::<ObjMeta>::empty(),
    {
        Listing { objects: Vec::new() }
    }

    /// Absorb the next page: its objects are appended after everything
    /// received so far, none dropped, none reordered.
    pub fn extend_page(&mut self, page: Vec<ObjMeta>)
        ensures
            final(self).objects@ == old(self).objects@ + page@,
    {
        let mut p = page;
        self.objects.append(&mut p);
    }
}

/// The views of a vector of pages.
pub open spec fn page_views(pages: Seq<Vec<ObjMeta>>) -> Seq<Seq<ObjMeta>> {
    pages.map_values(|p: Vec<ObjMeta>| p@)
}

/// Merge a complete chain of pages into one sequence, in page order.
pub fn merge_pages(pages: Vec<Vec<ObjMeta>>) -> (r: Vec<ObjMeta>)
    ensures
        r@ == page_views(pages@).flatten(),
{
    let ghost all = page_views(pages@);
    let mut rest = pages;
    let mut acc = Listing::new();
    while rest.len() > 0
        invariant
            acc.objects@ + page_views(rest@).flatten() == all.flatten(),
        decreases rest@.len(),
    {
        let ghost pre = rest@;
        let p = rest.remove(0);
        proof {
            assert(page_views(pre)[0] == p@);
            assert(page_views(pre).drop_first() =~= page_views(rest@));
            assert(page_views(pre).flatten() == p@ + page_views(rest@).flatten());
            assert((acc.objects@ + p@) + page_views(rest@).flatten() =~= acc.objects@ + (p@
                + page_views(rest@).flatten()));
        }
        acc.extend_page(p);
    }
    proof {
        assert(page_views(rest@).flatten() =~= Seq::<ObjMeta>::empty());
        assert(acc.objects@ + page_views(rest@).flatten() =~= acc.objects@);
    }
    acc.objects
}

/// Law: the pagination merge is complete and order-preserving. Absorbing
/// pages one at a time, newest request last, yields exactly the
/// concatenation of the pages: every object of every page, in page order,
/// with nothing added, dropped or reordered across page boundaries.
pub proof fn lemma_merge_complete(pages: Seq<Seq<ObjMeta>>)
    ensures
        merged_pages(pages) == pages.flatten(),
    decreases pages.len(),
{
    if pages.len() == 0 {
        assert(merged_pages(pages) =~= pages.flatten());
    } else {
        lemma_merge_complete(pages.drop_last());
        pages.lemma_flatten_and_flatten_alt_are_equivalent();
        pages.drop_last().lemma_flatten_and_flatten_alt_are_equivalent();
    }
}

/// The sequence a chain of pages merges to, written as `extend_page` builds
/// it: each page appended after the ones before it.
pub open spec fn merged_pages(pages: Seq<Seq<ObjMeta>>) -> Seq<ObjMeta>
    decreases pages.len(),
{
    if pages.len() == 0 {
        Seq::empty()
    } else {
        merged_pages(pages.drop_last()) + pages.last()
    }
}

/// The keys of a listing, in the listing's own order: one source's index
/// row is exactly this, applied to its sorted listing.
pub fn keys_of(objects: Vec<ObjMeta>) -> (r: Vec<String>)
    ensures
        r@ == objects@.map_values(|o: ObjMeta| o.key),
{
    let ghost all = objects@;
    let mut rest = objects;
    let mut r: Vec<String> = Vec::new();
    proof {
        assert(r@ =~= all.take(0).map_values(|o: ObjMeta| o.key));
        assert(rest@ =~= all.skip(0));
    }
    while rest.len() > 0
        invariant
            r@.len() <= all.len(),
            r@ == all.take(r@.len() as int).map_values(|o: ObjMeta| o.key),
            rest@ == all.skip(r@.len() as int),
        decreases rest@.len(),
    {
        let ghost n = r@.len() as int;
        let o = rest.remove(0);
        proof {
            assert(o == all[n]);
            assert(all.skip(n).drop_first() =~= all.skip(n + 1));
            assert(all.take(n + 1) =~= all.take(n).push(o));
            assert(all.take(n + 1).map_values(|o: ObjMeta| o.key) =~= all.take(n).map_values(
                |o: ObjMeta| o.key,
            ).push(o.key));
        }
        r.push(o.key);
    }
    proof {
        assert(all.take(r@.len() as int) =~= all);
    }
    r
}

/// Oldest-first order on upload time.
pub open spec fn sorted_by_uploaded(s: Seq<ObjMeta>) -> bool {
    forall|i: int, j: int| 0 <= i <= j < s.len() ==> s[i].uploaded_millis <= s[j].uploaded_millis
}

/// Order a merged listing oldest-first (ascending upload time), the
/// deterministic order the precomputed index uses. The result holds exactly
/// the objects given, as a multiset: nothing added, nothing dropped.
pub fn sort_by_uploaded(v: Vec<ObjMeta>) -> (r: Vec<ObjMeta>)
    ensures
        sorted_by_uploaded(r@),
        r@.to_multiset() == v@.to_multiset(),
{
    broadcast use vstd::seq_lib::group_to_multiset_ensures;

    let mut rest = v;
    let mut out: Vec<ObjMeta> = Vec::new();
    proof {
        assert_multisets_equal!(out@.to_multiset().add(rest@.to_multiset()), v@.to_multiset());
    }
    while rest.len() > 0
        invariant
            sorted_by_uploaded(out@),
            out@.to_multiset().add(rest@.to_multiset()) == v@.to_multiset(),
        decreases rest@.len(),
    {
        let ghost pre_rest = rest@;
        let ghost pre_out = out@;
        let x = rest.remove(0);
        let mut j: usize = 0;
        while j < out.len() && out[j].uploaded_millis <= x.uploaded_millis
            invariant
                j <= out@.len(),
                sorted_by_uploaded(out@),
                out@ == pre_out,
                forall|k: int| 0 <= k < j ==> out@[k].uploaded_millis <= x.uploaded_millis,
            decreases out@.len() - j,
        {
            j = j + 1;
        }
        proof {
            assert(forall|k: int|
                j <= k < out@.len() ==> x.uploaded_millis < out@[k].uploaded_millis);
        }
        out.insert(j, x);
        proof {
            assert(sorted_by_uploaded(out@)) by {
                assert(forall|i: int|
                    0 <= i < out@.len() ==> out@[i] == (if i < j {
                        pre_out[i]
                    } else if i == j {
                        x
                    } else {
                        pre_out[i - 1]
                    }));
            }
            vstd::seq_lib::to_multiset_insert(pre_out, j as int, x);
            vstd::seq_lib::to_multiset_remove(pre_rest, 0);
            assert(out@.to_multiset() == pre_out.to_multiset().insert(x));
            assert(rest@.to_multiset() == pre_rest.to_multiset().remove(x));
            assert(pre_rest.contains(x)) by {
                assert(pre_rest[0] == x);
            }
            vstd::seq_lib::to_multiset_contains(pre_rest, x);
            assert(pre_rest.to_multiset().count(x) > 0);
            assert_multisets_equal!(
                pre_out.to_multiset().insert(x).add(pre_rest.to_multiset().remove(x)),
                pre_out.to_multiset().add(pre_rest.to_multiset())
            );
        }
    }
    proof {
        assert(rest@.to_multiset().len() == 0);
        assert_multisets_equal!(out@.to_multiset().add(rest@.to_multiset()), out@.to_multiset());
    }
    out
}

} // verus!
