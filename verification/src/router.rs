//! Region-aware routing: the order in which each region prefers the
//! download sources, the score boost that order gives a source, and how
//! many of the ranked URLs are tried first.
//!
//! URL scores themselves weigh floating-point measurements and are computed
//! and sorted by the application, which adds [`RegionOptimizer::region_boost`].
use vstd::prelude::*;
use crate::config::sections::Region;
use crate::text::{owned, str_eq, string_views};

verus! {

/// The sources a region prefers, best first.
pub open spec fn preferred_sources(region: Region) -> Option<Seq<Seq<char>>> {
    match region {
        Region::China => Some(seq!["fastly"@, "jsdelivr"@, "github"@, "cloudflare"@]),
        Region::AsiaPacific => Some(seq!["cloudflare"@, "fastly"@, "jsdelivr"@, "github"@]),
        Region::Europe => Some(seq!["jsdelivr"@, "cloudflare"@, "fastly"@, "github"@]),
        Region::NorthAmerica => Some(seq!["github"@, "cloudflare"@, "fastly"@, "jsdelivr"@]),
        Region::Global => None,
    }
}

/// Region optimizer
#[derive(Debug)]
pub struct RegionOptimizer {
    /// The region downloads are optimized for
    pub current_region: Region,
    /// Each region's preferred sources, best first
    pub region_preferences: Vec<(Region, Vec<String>)>,
}

/// The texts of a list of source names.
fn names(list: Vec<&str>) -> (v: Vec<String>)
    ensures
        string_views(v@) == list@.map_values(|t: &str| t@),
{
    let mut v: Vec<String> = Vec::new();
    let mut i: usize = 0;
    while i < list.len()
        invariant
            i <= list@.len(),
            v@.len() == i,
            forall|k: int| 0 <= k < i ==> (#[trigger] v@[k])@ == list@[k]@,
        decreases list.len() - i,
    {
        v.push(owned(list[i]));
        i = i + 1;
    }
    assert(string_views(v@) =~= list@.map_values(|t: &str| t@));
    v
}

impl RegionOptimizer {
    /// The preference list recorded for a region, if any.
    pub open spec fn preferences_of(&self, r: Region) -> Option<Seq<Seq<char>>> {
        if exists|i: int| 0 <= i < self.region_preferences@.len() && self.region_preferences@[i].0 == r {
            let i = choose|i: int| 0 <= i < self.region_preferences@.len() && self.region_preferences@[i].0 == r
                && forall|j: int| 0 <= j < i ==> self.region_preferences@[j].0 != r;
            Some(string_views(self.region_preferences@[i].1@))
        } else {
            None
        }
    }

    /// An optimizer for `region` with the standard preferences.
    pub fn new(region: Region) -> (o: RegionOptimizer)
        ensures
            o.current_region == region,
            o.region_preferences@.len() == 4,
            o.region_preferences@[0].0 == Region::China,
            string_views(o.region_preferences@[0].1@) == preferred_sources(Region::China)->Some_0,
            o.region_preferences@[1].0 == Region::AsiaPacific,
            string_views(o.region_preferences@[1].1@) == preferred_sources(Region::AsiaPacific)->Some_0,
            o.region_preferences@[2].0 == Region::Europe,
            string_views(o.region_preferences@[2].1@) == preferred_sources(Region::Europe)->Some_0,
            o.region_preferences@[3].0 == Region::NorthAmerica,
            string_views(o.region_preferences@[3].1@) == preferred_sources(Region::NorthAmerica)->Some_0,
    {
        let china = vec!["fastly", "jsdelivr", "github", "cloudflare"];
        let asia = vec!["cloudflare", "fastly", "jsdelivr", "github"];
        let europe = vec!["jsdelivr", "cloudflare", "fastly", "github"];
        let america = vec!["github", "cloudflare", "fastly", "jsdelivr"];
        assert(china@.map_values(|t: &str| t@) =~= preferred_sources(Region::China)->Some_0);
        assert(asia@.map_values(|t: &str| t@) =~= preferred_sources(Region::AsiaPacific)->Some_0);
        assert(europe@.map_values(|t: &str| t@) =~= preferred_sources(Region::Europe)->Some_0);
        assert(america@.map_values(|t: &str| t@) =~= preferred_sources(Region::NorthAmerica)->Some_0);
        let region_preferences = vec![
            (Region::China, names(china)),
            (Region::AsiaPacific, names(asia)),
            (Region::Europe, names(europe)),
            (Region::NorthAmerica, names(america)),
        ];
        RegionOptimizer { current_region: region, region_preferences }
    }

    /// The first entry of the table for the current region.
    fn find_region(&self) -> (r: Option<usize>)
        ensures
            r matches Some(t) ==> t < self.region_preferences@.len()
                && self.region_preferences@[t as int].0 == self.current_region
                && forall|j: int| 0 <= j < t ==> self.region_preferences@[j].0 != self.current_region,
            r is None ==> forall|j: int| 0 <= j < self.region_preferences@.len()
                ==> self.region_preferences@[j].0 != self.current_region,
    {
        let table = &self.region_preferences;
        let mut t: usize = 0;
        while t < table.len()
            invariant
                t <= table@.len(),
                table@ == self.region_preferences@,
                forall|k: int| 0 <= k < t ==> (#[trigger] table@[k]).0 != self.current_region,
            decreases table.len() - t,
        {
            if table[t].0 == self.current_region {
                return Some(t);
            }
            t = t + 1;
        }
        None
    }

    /// Updates the region downloads are optimized for.
    pub fn set_region(&mut self, region: Region)
        ensures
            final(self).current_region == region,
            final(self).region_preferences@ == old(self).region_preferences@,
    {
        self.current_region = region;
    }

    /// The score boost of a source in the current region: five points per
    /// place from the end of the region's preference list (the first entry
    /// of the table for the region counts), nothing for other sources.
    pub fn region_boost(&self, source: &str) -> (b: u128)
        ensures
            match self.preferences_of(self.current_region) {
                Some(prefs) => if exists|i: int| 0 <= i < prefs.len() && prefs[i] == source@ {
                    exists|i: int| 0 <= i < prefs.len() && prefs[i] == source@
                        && (forall|j: int| 0 <= j < i ==> prefs[j] != source@)
                        && b == (prefs.len() - i) * 5
                } else {
                    b == 0
                },
                None => b == 0,
            },
    {
        let table = &self.region_preferences;
        let t = match self.find_region() {
            Some(t) => t,
            None => return 0,
        };
        let prefs = &table[t].1;
        let ghost views = string_views(prefs@);
        proof {
            let r = self.current_region;
            let c = choose|i: int| 0 <= i < table@.len() && table@[i].0 == r
                && forall|j: int| 0 <= j < i ==> table@[j].0 != r;
            assert(c == t as int) by {
                if c < t {
                    assert(table@[c].0 != r);
                } else if c > t {
                    assert(table@[t as int].0 != r);
                }
            }
        }
        let mut p: usize = 0;
        while p < prefs.len()
            invariant
                p <= prefs@.len(),
                views == string_views(prefs@),
                self.preferences_of(self.current_region) == Some(views),
                forall|j: int| 0 <= j < p ==> views[j] != source@,
            decreases prefs.len() - p,
        {
            if str_eq(prefs[p].as_str(), source) {
                assert(views[p as int] == source@);
                return ((prefs.len() - p) as u128) * 5;
            }
            p = p + 1;
        }
        0
    }
}

/// How many of the ranked URLs are tried first: up to three; the rest are
/// fallbacks.
pub fn primary_url_count(total: usize) -> (n: usize)
    ensures
        n == if total < 3 { total } else { 3 },
{
    if total < 3 { total } else { 3 }
}

} // verus!
