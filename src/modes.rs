//! The mode catalog query: which advertised modes suit a monitor's spec.
use vstd::prelude::*;

use crate::model::{Mode, MonitorSpec, REFRESH_RATE_TOLERANCE_MHZ};

verus! {

/// Distance between two rates.
pub open spec fn rate_distance(a: int, b: int) -> int {
    if a >= b {
        a - b
    } else {
        b - a
    }
}

/// A rate is acceptable for a requested one when it is strictly closer than
/// the tolerance.
pub open spec fn rate_acceptable(requested: Option<u64>, rate: u64) -> bool {
    match requested {
        None => true,
        Some(r) => rate_distance(rate as int, r as int) < REFRESH_RATE_TOLERANCE_MHZ as int,
    }
}

/// A mode suits a spec when its resolution is the spec's exactly and its rate
/// is acceptable.
pub open spec fn mode_matches(spec: MonitorSpec, m: Mode) -> bool {
    m.width == spec.width && m.height == spec.height && rate_acceptable(
        spec.refresh_rate_mhz,
        m.rate_mhz,
    )
}

/// The suitable modes of a catalog, in catalog order.
pub open spec fn compatible(spec: MonitorSpec, catalog: Seq<Mode>) -> Seq<Mode> {
    catalog.filter(|m: Mode| mode_matches(spec, m))
}

fn rate_within_tolerance(requested: u64, rate: u64) -> (r: bool)
    ensures
        r == (rate_distance(rate as int, requested as int) < REFRESH_RATE_TOLERANCE_MHZ as int),
{
    if rate >= requested {
        rate - requested < REFRESH_RATE_TOLERANCE_MHZ
    } else {
        requested - rate < REFRESH_RATE_TOLERANCE_MHZ
    }
}

impl MonitorSpec {
    /// Whether one mode suits this spec.
    pub fn accepts(&self, m: &Mode) -> (r: bool)
        ensures
            r == mode_matches(*self, *m),
    {
        if m.width != self.width || m.height != self.height {
            return false;
        }
        match self.refresh_rate_mhz {
            None => true,
            Some(requested) => rate_within_tolerance(requested, m.rate_mhz),
        }
    }

    /// The catalog's modes that suit this spec, in catalog order; empty when
    /// none does. No winner is picked among several suitable modes.
    pub fn compatible_modes(&self, catalog: &[Mode]) -> (r: Vec<Mode>)
        ensures
            r@ == compatible(*self, catalog@),
    {
        let ghost pred = |m: Mode| mode_matches(*self, m);
        let mut out: Vec<Mode> = Vec::new();
        let mut i: usize = 0;
        while i < catalog.len()
            invariant
                i <= catalog@.len(),
                pred == (|m: Mode| mode_matches(*self, m)),
                out@ == catalog@.subrange(0, i as int).filter(pred),
            decreases catalog@.len() - i,
        {
            let m = catalog[i];
            proof {
                let next = catalog@.subrange(0, i as int + 1);
                assert(next.drop_last() =~= catalog@.subrange(0, i as int));
                assert(next.last() == m);
                reveal(Seq::filter);
            }
            if self.accepts(&m) {
                out.push(m);
            }
            i = i + 1;
        }
        proof {
            assert(catalog@.subrange(0, catalog@.len() as int) =~= catalog@);
        }
        out
    }
}

/// With no requested rate, the compatible modes are exactly the catalog's
/// modes of the spec's resolution, in catalog order, whatever their rates.
pub proof fn lemma_any_rate_keeps_resolution(spec: MonitorSpec, catalog: Seq<Mode>)
    requires
        spec.refresh_rate_mhz is None,
    ensures
        compatible(spec, catalog) == catalog.filter(
            |m: Mode| m.width == spec.width && m.height == spec.height,
        ),
{
    let p1 = |m: Mode| mode_matches(spec, m);
    let p2 = |m: Mode| m.width == spec.width && m.height == spec.height;
    assert(p1 =~= p2);
}

/// With a requested rate, a mode of the spec's resolution is kept exactly when
/// its rate lies strictly within the tolerance of the requested one; in
/// particular a mode at exactly the requested rate is always kept.
pub proof fn lemma_requested_rate_tolerance(spec: MonitorSpec, catalog: Seq<Mode>, i: int)
    requires
        spec.refresh_rate_mhz is Some,
        0 <= i < catalog.len(),
        catalog[i].width == spec.width,
        catalog[i].height == spec.height,
    ensures
        catalog[i].rate_mhz == spec.refresh_rate_mhz->0 ==> compatible(spec, catalog).contains(
            catalog[i],
        ),
        rate_distance(catalog[i].rate_mhz as int, spec.refresh_rate_mhz->0 as int)
            < REFRESH_RATE_TOLERANCE_MHZ as int ==> compatible(spec, catalog).contains(catalog[i]),
        rate_distance(catalog[i].rate_mhz as int, spec.refresh_rate_mhz->0 as int)
            >= REFRESH_RATE_TOLERANCE_MHZ as int ==> !compatible(spec, catalog).contains(
            catalog[i],
        ),
{
    let pred = |m: Mode| mode_matches(spec, m);
    if mode_matches(spec, catalog[i]) {
        catalog.lemma_filter_contains(pred, i);
    } else {
        if compatible(spec, catalog).contains(catalog[i]) {
            let j = choose|j: int|
                0 <= j < compatible(spec, catalog).len() && compatible(spec, catalog)[j]
                    == catalog[i];
            catalog.lemma_filter_pred(pred, j);
        }
    }
}

} // verus!
