//! Multi-region support: regions, their latencies, and routing decisions.
use vstd::prelude::*;
use crate::clock;
use crate::sorting::{sort_by_key_stable, stable_sorted};
use crate::text::{owned, str_eq};

verus! {

/// Geographic region.
#[allow(non_camel_case_types)]
#[derive(Debug, PartialEq, Eq)]
pub enum Region {
    /// North America
    US_EAST,
    US_WEST,
    CANADA,
    /// Europe
    EU_WEST,
    EU_CENTRAL,
    /// Asia Pacific
    ASIA_SOUTHEAST,
    ASIA_NORTHEAST,
    /// Other regions
    Custom(String),
}

/// Abstract value of a region.
pub enum RegionView {
    UsEast,
    UsWest,
    Canada,
    EuWest,
    EuCentral,
    AsiaSoutheast,
    AsiaNortheast,
    Custom(Seq<char>),
}

impl View for Region {
    type V = RegionView;

    open spec fn view(&self) -> RegionView {
        match self {
            Region::US_EAST => RegionView::UsEast,
            Region::US_WEST => RegionView::UsWest,
            Region::CANADA => RegionView::Canada,
            Region::EU_WEST => RegionView::EuWest,
            Region::EU_CENTRAL => RegionView::EuCentral,
            Region::ASIA_SOUTHEAST => RegionView::AsiaSoutheast,
            Region::ASIA_NORTHEAST => RegionView::AsiaNortheast,
            Region::Custom(s) => RegionView::Custom(s@),
        }
    }
}

/// Estimated latency in milliseconds between two regions: 0 within a region,
/// the listed figure for the known pairs (in either direction), 200 otherwise.
pub open spec fn latency(a: RegionView, b: RegionView) -> u32 {
    if a == b {
        0
    } else {
        match (a, b) {
            (RegionView::UsEast, RegionView::UsWest) | (RegionView::UsWest, RegionView::UsEast) => 50,
            (RegionView::UsEast, RegionView::Canada) | (RegionView::Canada, RegionView::UsEast) => 30,
            (RegionView::EuWest, RegionView::EuCentral) | (RegionView::EuCentral, RegionView::EuWest) => 40,
            (RegionView::AsiaSoutheast, RegionView::AsiaNortheast) | (RegionView::AsiaNortheast, RegionView::AsiaSoutheast) => 80,
            (RegionView::UsEast, RegionView::EuWest) | (RegionView::EuWest, RegionView::UsEast) => 120,
            (RegionView::UsEast, RegionView::AsiaNortheast) | (RegionView::AsiaNortheast, RegionView::UsEast) => 180,
            _ => 200,
        }
    }
}

/// The display name of a region.
pub open spec fn region_name(r: RegionView) -> Seq<char> {
    match r {
        RegionView::UsEast => "us-east"@,
        RegionView::UsWest => "us-west"@,
        RegionView::Canada => "ca"@,
        RegionView::EuWest => "eu-west"@,
        RegionView::EuCentral => "eu-central"@,
        RegionView::AsiaSoutheast => "asia-se"@,
        RegionView::AsiaNortheast => "asia-ne"@,
        RegionView::Custom(name) => name,
    }
}

impl Clone for Region {
    fn clone(&self) -> (r: Self)
        ensures
            r@ == self@,
    {
        match self {
            Region::US_EAST => Region::US_EAST,
            Region::US_WEST => Region::US_WEST,
            Region::CANADA => Region::CANADA,
            Region::EU_WEST => Region::EU_WEST,
            Region::EU_CENTRAL => Region::EU_CENTRAL,
            Region::ASIA_SOUTHEAST => Region::ASIA_SOUTHEAST,
            Region::ASIA_NORTHEAST => Region::ASIA_NORTHEAST,
            Region::Custom(s) => Region::Custom(s.clone()),
        }
    }
}

impl Region {
    /// Whether two regions are the same.
    pub fn same_as(&self, other: &Region) -> (r: bool)
        ensures
            r == (self@ == other@),
    {
        match (self, other) {
            (Region::US_EAST, Region::US_EAST) => true,
            (Region::US_WEST, Region::US_WEST) => true,
            (Region::CANADA, Region::CANADA) => true,
            (Region::EU_WEST, Region::EU_WEST) => true,
            (Region::EU_CENTRAL, Region::EU_CENTRAL) => true,
            (Region::ASIA_SOUTHEAST, Region::ASIA_SOUTHEAST) => true,
            (Region::ASIA_NORTHEAST, Region::ASIA_NORTHEAST) => true,
            (Region::Custom(a), Region::Custom(b)) => str_eq(a.as_str(), b.as_str()),
            _ => false,
        }
    }

    /// Estimated latency in milliseconds to another region.
    pub fn latency_to(&self, other: &Region) -> (r: u32)
        ensures
            r == latency(self@, other@),
    {
        if self.same_as(other) {
            return 0;
        }
        match (self, other) {
            (Region::US_EAST, Region::US_WEST) => 50,
            (Region::US_WEST, Region::US_EAST) => 50,
            (Region::US_EAST, Region::CANADA) => 30,
            (Region::CANADA, Region::US_EAST) => 30,
            (Region::EU_WEST, Region::EU_CENTRAL) => 40,
            (Region::EU_CENTRAL, Region::EU_WEST) => 40,
            (Region::ASIA_SOUTHEAST, Region::ASIA_NORTHEAST) => 80,
            (Region::ASIA_NORTHEAST, Region::ASIA_SOUTHEAST) => 80,
            (Region::US_EAST, Region::EU_WEST) => 120,
            (Region::EU_WEST, Region::US_EAST) => 120,
            (Region::US_EAST, Region::ASIA_NORTHEAST) => 180,
            (Region::ASIA_NORTHEAST, Region::US_EAST) => 180,
            _ => 200,
        }
    }

    /// The region's display name ("us-east", "ca", ..., or a custom name).
    pub fn to_string(&self) -> (r: String)
        ensures
            r@ == region_name(self@),
    {
        match self {
            Region::US_EAST => owned("us-east"),
            Region::US_WEST => owned("us-west"),
            Region::CANADA => owned("ca"),
            Region::EU_WEST => owned("eu-west"),
            Region::EU_CENTRAL => owned("eu-central"),
            Region::ASIA_SOUTHEAST => owned("asia-se"),
            Region::ASIA_NORTHEAST => owned("asia-ne"),
            Region::Custom(name) => name.clone(),
        }
    }
}

/// Region-specific configuration.
#[derive(Debug)]
pub struct RegionConfig {
    /// Region identifier
    pub region: Region,
    /// Endpoint/address for this region
    pub endpoint: String,
    /// Maximum connections
    pub max_connections: u32,
    /// Is primary region for this instance
    pub is_primary: bool,
    /// Replication factor (how many copies across regions)
    pub replication_factor: u32,
    /// Minimum replicas required for write confirmation
    pub min_acks: u32,
}

impl Clone for RegionConfig {
    fn clone(&self) -> (r: Self)
        ensures
            r.region@ == self.region@,
            r.endpoint@ == self.endpoint@,
            r.max_connections == self.max_connections,
            r.is_primary == self.is_primary,
            r.replication_factor == self.replication_factor,
            r.min_acks == self.min_acks,
    {
        RegionConfig {
            region: self.region.clone(),
            endpoint: self.endpoint.clone(),
            max_connections: self.max_connections,
            is_primary: self.is_primary,
            replication_factor: self.replication_factor,
            min_acks: self.min_acks,
        }
    }
}

impl RegionConfig {
    /// A new non-primary region configuration with replication factor 1 and
    /// one acknowledgement required.
    pub fn new(region: Region, endpoint: String, max_connections: u32) -> (r: Self)
        ensures
            r.region == region,
            r.endpoint == endpoint,
            r.max_connections == max_connections,
            !r.is_primary,
            r.replication_factor == 1,
            r.min_acks == 1,
    {
        RegionConfig { region, endpoint, max_connections, is_primary: false, replication_factor: 1, min_acks: 1 }
    }

    /// The same configuration, as primary region.
    pub fn set_primary(self) -> (r: Self)
        ensures
            r == (RegionConfig { is_primary: true, ..self }),
    {
        let mut s = self;
        s.is_primary = true;
        s
    }

    /// The same configuration with these replication settings.
    pub fn with_replication(self, factor: u32, min_acks: u32) -> (r: Self)
        ensures
            r == (RegionConfig { replication_factor: factor, min_acks, ..self }),
    {
        let mut s = self;
        s.replication_factor = factor;
        s.min_acks = min_acks;
        s
    }
}

/// Region affinity for routing decisions.
#[derive(Debug, Clone, Copy, PartialEq, Eq)]
pub enum RegionAffinity {
    /// Route to closest region
    Closest,
    /// Route to primary region only
    Primary,
    /// Route to all regions (broadcast)
    All,
    /// Round-robin across regions
    RoundRobin,
    /// Least loaded region
    LeastLoaded,
}

/// Region health status.
#[derive(Debug, Clone)]
pub struct RegionHealth {
    pub region: Region,
    pub endpoint: String,
    pub is_healthy: bool,
    pub latency_ms: u32,
    pub last_checked: i64,
}

/// Replication topology for messages.
#[derive(Debug, Clone)]
pub struct ReplicationTopology {
    pub primary: Region,
    pub replicas: Vec<Region>,
    pub replication_factor: u32,
    pub min_acks: u32,
}

} // verus!

verus! {

/// The views of a sequence of regions.
pub open spec fn views_of(s: Seq<Region>) -> Seq<RegionView> {
    s.map_values(|x: Region| x@)
}

proof fn lemma_views_push(s: Seq<Region>, x: Region)
    ensures
        views_of(s.push(x)) == views_of(s).push(x@),
{
    assert(views_of(s.push(x)) =~= views_of(s).push(x@));
}

/// The regions of a list of configurations, as views.
pub open spec fn region_views(cs: Seq<RegionConfig>) -> Seq<RegionView> {
    cs.map_values(|c: RegionConfig| c.region@)
}

/// `s` without the occurrences of region `x`, in order.
pub open spec fn without_region(s: Seq<RegionView>, x: RegionView) -> Seq<RegionView>
    decreases s.len(),
{
    if s.len() == 0 {
        s
    } else if s.last() == x {
        without_region(s.drop_last(), x)
    } else {
        without_region(s.drop_last(), x).push(s.last())
    }
}

/// The first configuration registered for region `r`.
pub open spec fn first_config(cs: Seq<RegionConfig>, r: RegionView, i: int) -> bool {
    0 <= i < cs.len() && cs[i].region@ == r && forall|j: int| 0 <= j < i ==> (#[trigger] cs[j]).region@ != r
}

/// `cs` has a configuration for region `r`.
pub open spec fn has_region(cs: Seq<RegionConfig>, r: RegionView) -> bool {
    exists|i: int| 0 <= i < cs.len() && (#[trigger] cs[i]).region@ == r
}

/// Positions of `cs` ordered by estimated latency from `origin`, ties in
/// registration order.
pub open spec fn by_latency(cs: Seq<RegionConfig>, origin: RegionView) -> Seq<(u32, usize)> {
    stable_sorted(Seq::new(cs.len(), |i: int| (latency(origin, cs[i].region@), i as usize)))
}

/// Positions of `cs` ordered by maximum connections, ties in registration
/// order.
pub open spec fn by_load(cs: Seq<RegionConfig>) -> Seq<(u32, usize)> {
    stable_sorted(Seq::new(cs.len(), |i: int| (cs[i].max_connections, i as usize)))
}

/// The regions at the positions listed in `order`.
pub open spec fn regions_at(cs: Seq<RegionConfig>, order: Seq<(u32, usize)>) -> Seq<RegionView> {
    order.map_values(|p: (u32, usize)| cs[p.1 as int].region@)
}

/// Multi-region router: the registered regions in registration order, one
/// configuration per region.
pub struct MultiRegionRouter {
    regions: Vec<RegionConfig>,
    affinity: RegionAffinity,
    round_robin_index: usize,
}

impl MultiRegionRouter {
    /// The registered configurations.
    pub closed spec fn configs(&self) -> Seq<RegionConfig> {
        self.regions@
    }

    /// The routing affinity.
    pub closed spec fn affinity(&self) -> RegionAffinity {
        self.affinity
    }

    /// The round-robin counter.
    pub closed spec fn rr_index(&self) -> usize {
        self.round_robin_index
    }

    /// Create a new router: no region, closest-region affinity.
    pub fn new() -> (r: Self)
        ensures
            r.configs().len() == 0,
            r.affinity() == RegionAffinity::Closest,
            r.rr_index() == 0,
    {
        MultiRegionRouter { regions: Vec::new(), affinity: RegionAffinity::Closest, round_robin_index: 0 }
    }

    fn find(&self, region: &Region) -> (r: Option<usize>)
        ensures
            r matches Some(i) ==> first_config(self.configs(), region@, i as int),
            r is None ==> !has_region(self.configs(), region@),
    {
        let mut i: usize = 0;
        while i < self.regions.len()
            invariant
                i <= self.regions@.len(),
                forall|j: int| 0 <= j < i ==> (#[trigger] self.regions@[j]).region@ != region@,
            decreases self.regions@.len() - i,
        {
            if self.regions[i].region.same_as(region) {
                return Some(i);
            }
            i = i + 1;
        }
        None
    }

    /// Register a region: its configuration replaces the one registered for
    /// the same region, or joins the end of the list.
    pub fn register_region(&mut self, config: RegionConfig) -> (r: Result<(), String>)
        ensures
            r is Ok,
            final(self).affinity() == old(self).affinity(),
            final(self).rr_index() == old(self).rr_index(),
            has_region(old(self).configs(), config.region@) ==> exists|i: int| 0 <= i < old(self).configs().len()
                && old(self).configs()[i].region@ == config.region@
                && final(self).configs() == old(self).configs().update(i, config),
            !has_region(old(self).configs(), config.region@) ==> final(self).configs() == old(self).configs().push(config),
    {
        match self.find(&config.region) {
            Some(i) => {
                self.regions.set(i, config);
            },
            None => {
                self.regions.push(config);
            },
        }
        Ok(())
    }

    /// Remove a region's configuration, if registered.
    pub fn remove_region(&mut self, region: &Region) -> (r: Result<(), String>)
        ensures
            r is Ok,
            final(self).affinity() == old(self).affinity(),
            final(self).rr_index() == old(self).rr_index(),
            has_region(old(self).configs(), region@) ==> exists|i: int| 0 <= i < old(self).configs().len()
                && old(self).configs()[i].region@ == region@
                && final(self).configs() == old(self).configs().remove(i),
            !has_region(old(self).configs(), region@) ==> final(self).configs() == old(self).configs(),
    {
        match self.find(region) {
            Some(i) => {
                let _ = self.regions.remove(i);
            },
            None => {},
        }
        Ok(())
    }

    /// All registered regions, in registration order.
    pub fn get_regions(&self) -> (r: Vec<Region>)
        ensures
            views_of(r@) == region_views(self.configs()),
    {
        let mut out: Vec<Region> = Vec::new();
        let mut i: usize = 0;
        while i < self.regions.len()
            invariant
                i <= self.regions@.len(),
                views_of(out@) == region_views(self.regions@).take(i as int),
            decreases self.regions@.len() - i,
        {
            let ghost o0 = out@;
            let x = self.regions[i].region.clone();
            out.push(x);
            proof { lemma_views_push(o0, x); }
            assert(views_of(out@) =~= region_views(self.regions@).take(i + 1));
            i = i + 1;
        }
        assert(region_views(self.regions@).take(i as int) =~= region_views(self.regions@));
        out
    }

    /// The configuration registered for a region.
    pub fn get_region_config(&self, region: &Region) -> (r: Option<RegionConfig>)
        ensures
            r is None <==> !has_region(self.configs(), region@),
            r matches Some(c) ==> exists|i: int| 0 <= i < self.configs().len()
                && self.configs()[i].region@ == region@
                && c.region@ == self.configs()[i].region@ && c.endpoint@ == self.configs()[i].endpoint@
                && c.max_connections == self.configs()[i].max_connections
                && c.is_primary == self.configs()[i].is_primary
                && c.replication_factor == self.configs()[i].replication_factor
                && c.min_acks == self.configs()[i].min_acks,
    {
        match self.find(region) {
            Some(i) => Some(self.regions[i].clone()),
            None => None,
        }
    }

    /// The health of a registered region, checked now; see
    /// `check_region_health_at`.
    pub fn check_region_health(&self, region: &Region) -> (r: Result<RegionHealth, String>)
        ensures
            !has_region(self.configs(), region@) ==> (r matches Err(e) && e@ == "Region not found"@),
            has_region(self.configs(), region@) ==> (r matches Ok(h) && h.region@ == region@ && h.is_healthy
                && h.latency_ms == 0 && exists|i: int| first_config(self.configs(), region@, i)
                    && h.endpoint@ == self.configs()[i].endpoint@),
    {
        let now = clock::utc_timestamp();
        self.check_region_health_at(region, now)
    }

    /// The health of a registered region at time `now` (seconds): it is
    /// reported healthy with no latency, and its endpoint; "Region not found"
    /// for an unregistered region.
    pub fn check_region_health_at(&self, region: &Region, now: i64) -> (r: Result<RegionHealth, String>)
        ensures
            !has_region(self.configs(), region@) ==> (r matches Err(e) && e@ == "Region not found"@),
            has_region(self.configs(), region@) ==> (r matches Ok(h) && h.region@ == region@ && h.is_healthy
                && h.latency_ms == 0 && h.last_checked == now && exists|i: int| first_config(self.configs(), region@, i)
                    && h.endpoint@ == self.configs()[i].endpoint@),
    {
        match self.find(region) {
            Some(i) => Ok(RegionHealth {
                region: region.clone(),
                endpoint: self.regions[i].endpoint.clone(),
                is_healthy: true,
                latency_ms: 0,
                last_checked: now,
            }),
            None => Err(owned("Region not found")),
        }
    }

    /// The replication topology of a message from `origin_region`: the
    /// target regions (as `get_target_regions` picks them from the origin,
    /// which also advances the round-robin counter) other than the origin
    /// are its replicas, and the origin's configuration gives the
    /// replication factor and acknowledgements needed. "No regions
    /// registered" when there is none; "Origin region not found" when the
    /// origin is not registered.
    pub fn get_replication_topology(&mut self, origin_region: &Region) -> (r: Result<ReplicationTopology, String>)
        ensures
            final(self).configs() == old(self).configs(),
            final(self).affinity() == old(self).affinity(),
            old(self).configs().len() == 0 ==> (r matches Err(e) && e@ == "No regions registered"@
                && final(self).rr_index() == old(self).rr_index()),
            old(self).configs().len() > 0 ==> final(self).rr_index() == if old(self).affinity() == RegionAffinity::RoundRobin {
                vstd::wrapping::usize_specs::wrapping_add(old(self).rr_index(), 1)
            } else {
                old(self).rr_index()
            },
            old(self).configs().len() > 0 && !has_region(old(self).configs(), origin_region@) ==>
                (r matches Err(e) && e@ == "Origin region not found"@),
            old(self).configs().len() > 0 && has_region(old(self).configs(), origin_region@) ==>
                (r matches Ok(t) && t.primary@ == origin_region@
                    && (exists|targets: Seq<RegionView>| #[trigger] targets_ok(old(self).configs(), old(self).affinity(),
                        old(self).rr_index(), Some(origin_region), targets)
                        && views_of(t.replicas@) == without_region(targets, origin_region@))
                    && exists|i: int| first_config(old(self).configs(), origin_region@, i)
                        && t.replication_factor == old(self).configs()[i].replication_factor
                        && t.min_acks == old(self).configs()[i].min_acks),
    {
        let targets = match self.get_target_regions(Some(origin_region)) {
            Ok(t) => t,
            Err(e) => {
                return Err(e);
            },
        };
        let i = match self.find(origin_region) {
            Some(i) => i,
            None => {
                return Err(owned("Origin region not found"));
            },
        };
        let ghost tv = views_of(targets@);
        let mut replicas: Vec<Region> = Vec::new();
        let mut k: usize = 0;
        while k < targets.len()
            invariant
                k <= targets@.len(),
                tv == views_of(targets@),
                views_of(replicas@) == without_region(tv.take(k as int), origin_region@),
            decreases targets@.len() - k,
        {
            assert(tv.take(k + 1).drop_last() =~= tv.take(k as int));
            if !targets[k].same_as(origin_region) {
                let ghost r0 = replicas@;
                let x = targets[k].clone();
                replicas.push(x);
                proof { lemma_views_push(r0, x); }
            }
            k = k + 1;
        }
        assert(tv.take(targets@.len() as int) =~= tv);
        Ok(ReplicationTopology {
            primary: origin_region.clone(),
            replicas,
            replication_factor: self.regions[i].replication_factor,
            min_acks: self.regions[i].min_acks,
        })
    }

    /// Set the routing affinity.
    pub fn set_affinity(&mut self, affinity: RegionAffinity)
        ensures
            final(self).configs() == old(self).configs(),
            final(self).affinity() == affinity,
            final(self).rr_index() == old(self).rr_index(),
    {
        self.affinity = affinity;
    }

    /// The regions at the given positions, in order.
    fn regions_in_order(&self, order: &Vec<(u32, usize)>) -> (r: Vec<Region>)
        requires
            forall|k: int| 0 <= k < order@.len() ==> (#[trigger] order@[k]).1 < self.configs().len(),
        ensures
            views_of(r@) == regions_at(self.configs(), order@),
    {
        let mut out: Vec<Region> = Vec::new();
        let mut i: usize = 0;
        while i < order.len()
            invariant
                i <= order@.len(),
                forall|k: int| 0 <= k < order@.len() ==> (#[trigger] order@[k]).1 < self.regions@.len(),
                views_of(out@) == regions_at(self.regions@, order@).take(i as int),
            decreases order@.len() - i,
        {
            let idx = order[i].1;
            let ghost o0 = out@;
            let x = self.regions[idx].region.clone();
            out.push(x);
            proof { lemma_views_push(o0, x); }
            assert(views_of(out@) =~= regions_at(self.regions@, order@).take(i + 1));
            i = i + 1;
        }
        assert(regions_at(self.regions@, order@).take(i as int) =~= regions_at(self.regions@, order@));
        out
    }

    /// Target regions for a message according to the affinity: an error when
    /// no region is registered; for `Primary` the first primary region (or
    /// none); for `All` every region; for `Closest` every region ordered by
    /// latency from the origin (registration order without an origin); for
    /// `RoundRobin` the next region in turn; for `LeastLoaded` every region
    /// ordered by maximum connections.
    pub fn get_target_regions(&mut self, origin_region: Option<&Region>) -> (r: Result<Vec<Region>, String>)
        ensures
            final(self).configs() == old(self).configs(),
            final(self).affinity() == old(self).affinity(),
            old(self).configs().len() == 0 ==> (r matches Err(e) && e@ == "No regions registered"@
                && final(self).rr_index() == old(self).rr_index()),
            old(self).configs().len() > 0 ==> (r matches Ok(v) && targets_ok(old(self).configs(), old(self).affinity(),
                old(self).rr_index(), origin_region, views_of(v@))),
            old(self).configs().len() > 0 ==> final(self).rr_index() == if old(self).affinity() == RegionAffinity::RoundRobin {
                vstd::wrapping::usize_specs::wrapping_add(old(self).rr_index(), 1)
            } else {
                old(self).rr_index()
            },
    {
        if self.regions.len() == 0 {
            return Err(owned("No regions registered"));
        }
        match self.affinity {
            RegionAffinity::Primary => {
                let mut i: usize = 0;
                while i < self.regions.len()
                    invariant
                        i <= self.regions@.len(),
                        self.regions@ == old(self).regions@,
                        self.affinity == old(self).affinity,
                        self.affinity == RegionAffinity::Primary,
                        self.round_robin_index == old(self).round_robin_index,
                        forall|j: int| 0 <= j < i ==> !(#[trigger] self.regions@[j]).is_primary,
                    decreases self.regions@.len() - i,
                {
                    if self.regions[i].is_primary {
                        let mut v: Vec<Region> = Vec::new();
                        v.push(self.regions[i].region.clone());
                        assert(views_of(v@) =~= seq![self.regions@[i as int].region@]);
                        return Ok(v);
                    }
                    i = i + 1;
                }
                let v: Vec<Region> = Vec::new();
                assert(views_of(v@) =~= Seq::<RegionView>::empty());
                Ok(v)
            },
            RegionAffinity::All => Ok(self.get_regions()),
            RegionAffinity::Closest => {
                match origin_region {
                    Some(origin) => {
                        let mut keyed: Vec<(u32, usize)> = Vec::new();
                        let mut i: usize = 0;
                        while i < self.regions.len()
                            invariant
                                i <= self.regions@.len(),
                                keyed@ == Seq::new(i as nat, |k: int| (latency(origin@, self.regions@[k].region@), k as usize)),
                            decreases self.regions@.len() - i,
                        {
                            let l = origin.latency_to(&self.regions[i].region);
                            keyed.push((l, i));
                            assert(keyed@ =~= Seq::new((i + 1) as nat, |k: int| (latency(origin@, self.regions@[k].region@), k as usize)));
                            i = i + 1;
                        }
                        let sorted = sort_by_key_stable(keyed);
                        proof { lemma_sorted_positions(Seq::new(self.regions@.len(), |k: int| (latency(origin@, self.regions@[k].region@), k as usize)), self.regions@.len()); }
                        Ok(self.regions_in_order(&sorted))
                    },
                    None => Ok(self.get_regions()),
                }
            },
            RegionAffinity::RoundRobin => {
                let n = self.regions.len();
                let target = self.regions[self.round_robin_index % n].region.clone();
                self.round_robin_index = self.round_robin_index.wrapping_add(1);
                let mut v: Vec<Region> = Vec::new();
                v.push(target);
                assert(views_of(v@) =~= seq![target@]);
                Ok(v)
            },
            RegionAffinity::LeastLoaded => {
                let mut keyed: Vec<(u32, usize)> = Vec::new();
                let mut i: usize = 0;
                while i < self.regions.len()
                    invariant
                        i <= self.regions@.len(),
                        keyed@ == Seq::new(i as nat, |k: int| (self.regions@[k].max_connections, k as usize)),
                    decreases self.regions@.len() - i,
                {
                    keyed.push((self.regions[i].max_connections, i));
                    assert(keyed@ =~= Seq::new((i + 1) as nat, |k: int| (self.regions@[k].max_connections, k as usize)));
                    i = i + 1;
                }
                let sorted = sort_by_key_stable(keyed);
                proof { lemma_sorted_positions(Seq::new(self.regions@.len(), |k: int| (self.regions@[k].max_connections, k as usize)), self.regions@.len()); }
                Ok(self.regions_in_order(&sorted))
            },
        }
    }
}

/// What `get_target_regions` returns for a non-empty list of regions.
pub open spec fn targets_ok(cs: Seq<RegionConfig>, affinity: RegionAffinity, rr: usize, origin: Option<&Region>, out: Seq<RegionView>) -> bool {
    match affinity {
        RegionAffinity::Primary => {
            if exists|i: int| 0 <= i < cs.len() && (#[trigger] cs[i]).is_primary {
                exists|i: int| 0 <= i < cs.len() && (#[trigger] cs[i]).is_primary
                    && (forall|j: int| 0 <= j < i ==> !(#[trigger] cs[j]).is_primary)
                    && out == seq![cs[i].region@]
            } else {
                out.len() == 0
            }
        },
        RegionAffinity::All => out == region_views(cs),
        RegionAffinity::Closest => match origin {
            Some(o) => out == regions_at(cs, by_latency(cs, o@)),
            None => out == region_views(cs),
        },
        RegionAffinity::RoundRobin => out == seq![cs[(rr as int) % (cs.len() as int)].region@],
        RegionAffinity::LeastLoaded => out == regions_at(cs, by_load(cs)),
    }
}

/// Sorting positions keeps them positions.
proof fn lemma_sorted_positions(s: Seq<(u32, usize)>, n: nat)
    requires
        forall|k: int| 0 <= k < s.len() ==> (#[trigger] s[k]).1 < n,
    ensures
        forall|k: int| 0 <= k < stable_sorted(s).len() ==> (#[trigger] stable_sorted(s)[k]).1 < n,
{
    crate::sorting::law_stable_sorted_is_sorted_permutation(s);
    assert forall|k: int| 0 <= k < stable_sorted(s).len() implies (#[trigger] stable_sorted(s)[k]).1 < n by {
        let x = stable_sorted(s)[k];
        stable_sorted(s).to_multiset_ensures();
        s.to_multiset_ensures();
        assert(stable_sorted(s).contains(x));
        assert(stable_sorted(s).to_multiset().count(x) > 0);
        assert(s.to_multiset().count(x) > 0);
        assert(s.contains(x));
    }
}

} // verus!

verus! {

/// Latency law: the estimate is the same in both directions, zero exactly
/// within one region, and the listed figures hold both ways: US-East to
/// Canada 30, to US-West 50, to EU-West 120, to Asia-Northeast 180;
/// EU-West to EU-Central 40; Asia-Southeast to Asia-Northeast 80. Every other
/// pair of distinct regions is estimated at 200.
pub proof fn law_latency_is_symmetric(a: RegionView, b: RegionView)
    ensures
        latency(a, b) == latency(b, a),
        (latency(a, b) == 0) <==> (a == b),
        latency(RegionView::Canada, RegionView::UsEast) == 30,
        latency(RegionView::UsWest, RegionView::UsEast) == 50,
        latency(RegionView::EuWest, RegionView::UsEast) == 120,
        latency(RegionView::AsiaNortheast, RegionView::UsEast) == 180,
        latency(RegionView::EuCentral, RegionView::EuWest) == 40,
        latency(RegionView::AsiaNortheast, RegionView::AsiaSoutheast) == 80,
        a != b ==> latency(a, b) == 30 || latency(a, b) == 40 || latency(a, b) == 50 || latency(a, b) == 80
            || latency(a, b) == 120 || latency(a, b) == 180 || latency(a, b) == 200,
{
}

} // verus!
