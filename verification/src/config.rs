//! Batch configuration: the sites to test and the targets they expand to.

use vstd::prelude::*;

use crate::app_type::AppType;
use crate::endpoint::{Endpoint, EndpointView, SocketAddress};

verus! {

/// A set of [`Site`]s to test.
#[derive(Debug)]
pub struct Config {
    pub site: Vec<Site>,
}

/// A named deployment of one or more Sv2 endpoints.
#[derive(Debug)]
pub struct Site {
    pub name: String,
    pub pool_address: Option<SocketAddress>,
    pub jds_address: Option<SocketAddress>,
    pub user_identity: Option<String>,
}

/// A single endpoint under test, derived from a [`Site`].
#[derive(Debug)]
pub struct Target {
    pub site_name: String,
    pub endpoint: Endpoint,
}

/// A target with its strings taken by their characters.
pub type TargetView = (Seq<char>, EndpointView);

impl View for Target {
    type V = TargetView;

    open spec fn view(&self) -> TargetView {
        (self.site_name@, self.endpoint@)
    }
}

impl Clone for Target {
    fn clone(&self) -> (t: Self)
        ensures
            t@ == self@,
    {
        Target { site_name: self.site_name.clone(), endpoint: self.endpoint.clone() }
    }
}

/// The `user_identity` used when a site names none.
pub open spec fn default_user_identity() -> Seq<char> {
    "interoperability_tests_sv2"@
}

/// The identity under which `site`'s endpoints are tested.
pub open spec fn site_identity(site: Site) -> Seq<char> {
    match site.user_identity {
        Some(u) => u@,
        None => default_user_identity(),
    }
}

/// The target for `addr` of `site`, if the address is configured.
pub open spec fn address_target(site: Site, addr: Option<SocketAddress>, app_type: AppType) -> Seq<TargetView> {
    match addr {
        Some(a) => seq![(site.name@, (a, app_type, site_identity(site)))],
        None => Seq::empty(),
    }
}

/// One target per configured address of `site`: `pool_address` as a pool,
/// then `jds_address` as a Job Declarator Server.
pub open spec fn site_targets(site: Site) -> Seq<TargetView> {
    address_target(site, site.pool_address, AppType::SoloPool)
        + address_target(site, site.jds_address, AppType::JobDeclaratorServer)
}

/// The targets of `sites`, site by site, in order.
pub open spec fn sites_targets(sites: Seq<Site>) -> Seq<TargetView>
    decreases sites.len(),
{
    if sites.len() == 0 {
        Seq::empty()
    } else {
        sites_targets(sites.drop_last()) + site_targets(sites.last())
    }
}

/// How many addresses `sites` configure.
pub open spec fn address_count(sites: Seq<Site>) -> nat
    decreases sites.len(),
{
    if sites.len() == 0 {
        0
    } else {
        address_count(sites.drop_last())
            + (if sites.last().pool_address is Some { 1nat } else { 0nat })
            + (if sites.last().jds_address is Some { 1nat } else { 0nat })
    }
}

/// The views of a list of targets.
pub open spec fn targets_view(targets: Seq<Target>) -> Seq<TargetView> {
    targets.map_values(|t: Target| t@)
}

/// There is one target per configured address.
pub proof fn lemma_one_target_per_address(sites: Seq<Site>)
    ensures
        sites_targets(sites).len() == address_count(sites),
    decreases sites.len(),
{
    if sites.len() > 0 {
        lemma_one_target_per_address(sites.drop_last());
    }
}

fn default_identity() -> (s: String)
    ensures
        s@ == default_user_identity(),
{
    String::from_str("interoperability_tests_sv2")
}

fn push_target(out: &mut Vec<Target>, site: &Site, addr: Option<SocketAddress>, app_type: AppType, identity: &String)
    requires
        identity@ == site_identity(*site),
    ensures
        targets_view(final(out)@) == targets_view(old(out)@) + address_target(*site, addr, app_type),
{
    match addr {
        Some(a) => {
            let t = Target {
                site_name: site.name.clone(),
                endpoint: Endpoint { addr: a, app_type, user_identity: identity.clone() },
            };
            out.push(t);
            assert(targets_view(out@) =~= targets_view(old(out)@) + address_target(*site, addr, app_type));
        },
        None => {
            assert(targets_view(out@) =~= targets_view(old(out)@) + address_target(*site, addr, app_type));
        },
    }
}

impl Config {
    /// One [`Target`] per configured address: `pool_address` is tested as a
    /// pool, `jds_address` as a Job Declarator Server.
    pub fn targets(&self) -> (out: Vec<Target>)
        ensures
            targets_view(out@) == sites_targets(self.site@),
            out@.len() == address_count(self.site@),
    {
        let mut out: Vec<Target> = Vec::new();
        let n = self.site.len();
        let mut i: usize = 0;
        while i < n
            invariant
                n == self.site@.len(),
                0 <= i <= n,
                targets_view(out@) == sites_targets(self.site@.take(i as int)),
            decreases n - i,
        {
            let site = &self.site[i];
            let user_identity = match &site.user_identity {
                Some(u) => u.clone(),
                None => default_identity(),
            };
            push_target(&mut out, site, site.pool_address, AppType::SoloPool, &user_identity);
            push_target(&mut out, site, site.jds_address, AppType::JobDeclaratorServer, &user_identity);
            proof {
                let taken = self.site@.take(i as int + 1);
                assert(taken.drop_last() =~= self.site@.take(i as int));
                assert(taken.last() == self.site@[i as int]);
            }
            i = i + 1;
        }
        proof {
            assert(self.site@.take(n as int) =~= self.site@);
            lemma_one_target_per_address(self.site@);
        }
        out
    }
}

} // verus!

verus! {

/// The targets of a site: one per configured address, the pool address
/// first and tested as a Solo Pool, the JDS address tested as a Job
/// Declarator Server; every target carries the site's name and its
/// `user_identity`, or "interoperability_tests_sv2" when it names none.
pub proof fn lemma_site_targets(site: Site)
    ensures
        site_targets(site).len() == (if site.pool_address is Some { 1int } else { 0int }) + (
        if site.jds_address is Some { 1int } else { 0int }),
        forall|i: int|
            #![trigger site_targets(site)[i]]
            0 <= i < site_targets(site).len() ==> {
                &&& site_targets(site)[i].0 == site.name@
                &&& site_targets(site)[i].1.2 == (match site.user_identity {
                    Some(u) => u@,
                    None => "interoperability_tests_sv2"@,
                })
                &&& (site_targets(site)[i].1.1 == AppType::SoloPool && site.pool_address == Some(
                    site_targets(site)[i].1.0,
                )) || (site_targets(site)[i].1.1 == AppType::JobDeclaratorServer && site.jds_address
                    == Some(site_targets(site)[i].1.0))
            },
        site.pool_address matches Some(a) ==> site_targets(site)[0].1.0 == a && site_targets(site)[0].1.1
            == AppType::SoloPool,
        site.jds_address matches Some(a) ==> site_targets(site).last().1.0 == a && site_targets(
            site,
        ).last().1.1 == AppType::JobDeclaratorServer,
{
}

/// The targets of several sites are those of each site, site by site: the
/// targets of a list with one more site end with that site's targets.
pub proof fn lemma_sites_targets_append(sites: Seq<Site>, site: Site)
    ensures
        sites_targets(sites.push(site)) == sites_targets(sites) + site_targets(site),
{
    assert(sites.push(site).drop_last() =~= sites);
}

/// Every target comes from one of the configured sites: the `i`-th target
/// is one of the targets of some site.
pub proof fn lemma_target_comes_from_a_site(sites: Seq<Site>, i: int)
    requires
        0 <= i < sites_targets(sites).len(),
    ensures
        exists|j: int| 0 <= j < sites.len() && #[trigger] site_targets(sites[j]).contains(sites_targets(sites)[i]),
    decreases sites.len(),
{
    let init = sites.drop_last();
    let before = sites_targets(init);
    let last = site_targets(sites.last());
    assert(sites_targets(sites) == before + last);
    if i < before.len() {
        lemma_target_comes_from_a_site(init, i);
        let j = choose|j: int| 0 <= j < init.len() && #[trigger] site_targets(init[j]).contains(before[i]);
        assert(init[j] == sites[j]);
        assert(sites_targets(sites)[i] == before[i]);
        assert(site_targets(sites[j]).contains(sites_targets(sites)[i]));
    } else {
        assert(sites_targets(sites)[i] == last[i - before.len()]);
        assert(last.contains(sites_targets(sites)[i]));
        assert(sites[sites.len() - 1] == sites.last());
        assert(site_targets(sites[sites.len() - 1]).contains(sites_targets(sites)[i]));
    }
}

} // verus!
