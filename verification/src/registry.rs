//! The source registry: the fixed set of camera feeds, each a stable
//! identifier and a fetch URL. Immutable for the life of the process, with
//! a deterministic iteration order (ascending by identifier, as written).

use vstd::prelude::*;

verus! {

/// One external image feed: a stable identifier (also the storage key
/// prefix) and the URL its snapshots are fetched from.
pub struct Source {
    /// Stable camera identifier.
    pub id: &'static str,
    /// Image URL for this camera.
    pub url: &'static str,
}

/// The configured camera feeds, in a fixed deterministic order with
/// pairwise-distinct identifiers.
pub fn sources() -> (r: Vec<Source>)
    ensures
        r@.len() == 4,
        r@[0].id@ == "tv721"@,
        r@[1].id@ == "tv722"@,
        r@[2].id@ == "tv726"@,
        r@[3].id@ == "tv727"@,
        r@[0].url@ == "https://cwwp2.dot.ca.gov/data/d4/cctv/image/tv721i880at7thst/tv721i880at7thst.jpg"@,
        r@[1].url@ == "https://cwwp2.dot.ca.gov/data/d4/cctv/image/tv722i880atjno7thstreet/tv722i880atjno7thstreet.jpg"@,
        r@[2].url@ == "https://cwwp2.dot.ca.gov/data/d4/cctv/image/tv726i880atjct80/tv726i880atjct80.jpg"@,
        r@[3].url@ == "https://cwwp2.dot.ca.gov/data/d4/cctv/image/tv727i880n880atgrandav/tv727i880n880atgrandav.jpg"@,
        forall|i: int, j: int| 0 <= i < j < r@.len() ==> r@[i].id@ != r@[j].id@,
{
    let mut v: Vec<Source> = Vec::new();
    v.push(Source {
        id: "tv721",
        url: "https://cwwp2.dot.ca.gov/data/d4/cctv/image/tv721i880at7thst/tv721i880at7thst.jpg",
    });
    v.push(Source {
        id: "tv722",
        url: "https://cwwp2.dot.ca.gov/data/d4/cctv/image/tv722i880atjno7thstreet/tv722i880atjno7thstreet.jpg",
    });
    v.push(Source {
        id: "tv726",
        url: "https://cwwp2.dot.ca.gov/data/d4/cctv/image/tv726i880atjct80/tv726i880atjct80.jpg",
    });
    v.push(Source {
        id: "tv727",
        url: "https://cwwp2.dot.ca.gov/data/d4/cctv/image/tv727i880n880atgrandav/tv727i880n880atgrandav.jpg",
    });
    proof {
        reveal_strlit("tv721");
        reveal_strlit("tv722");
        reveal_strlit("tv726");
        reveal_strlit("tv727");
        assert(("tv721"@)[4] != ("tv722"@)[4]);
        assert(("tv721"@)[4] != ("tv726"@)[4]);
        assert(("tv721"@)[4] != ("tv727"@)[4]);
        assert(("tv722"@)[4] != ("tv726"@)[4]);
        assert(("tv722"@)[4] != ("tv727"@)[4]);
        assert(("tv726"@)[4] != ("tv727"@)[4]);
    }
    v
}

} // verus!
