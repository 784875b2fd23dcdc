//! The decisions of the update loop: which families to detect at all, and
//! whether a freshly detected address differs from the last one written.

use vstd::prelude::*;

use crate::ip::IpAddress;
use crate::sync::{policy_matches, CfConfig};

verus! {

/// The last address of each family that synchronization was run for.
#[derive(Debug, Clone, Copy, PartialEq, Eq, Structural)]
pub struct UpdateTracker {
    /// The last written address of the 4th version, if any.
    pub previous_ipv4: Option<u32>,
    /// The last written address of the 6th version, if any.
    pub previous_ipv6: Option<u128>,
}

impl UpdateTracker {
    /// A tracker that has seen nothing yet.
    pub fn new() -> (r: Self)
        ensures
            r.previous_ipv4 is None,
            r.previous_ipv6 is None,
    {
        UpdateTracker { previous_ipv4: None, previous_ipv6: None }
    }

    /// Take in a freshly detected address: true exactly when it differs from
    /// the last one of its family, in which case synchronization is due. The
    /// other family's memory is untouched.
    pub fn on_detected(&mut self, ip: IpAddress) -> (changed: bool)
        ensures
            match ip {
                IpAddress::V4(a) => {
                    &&& changed == (old(self).previous_ipv4 != Some(a))
                    &&& final(self).previous_ipv4 == Some(a)
                    &&& final(self).previous_ipv6 == old(self).previous_ipv6
                },
                IpAddress::V6(a) => {
                    &&& changed == (old(self).previous_ipv6 != Some(a))
                    &&& final(self).previous_ipv6 == Some(a)
                    &&& final(self).previous_ipv4 == old(self).previous_ipv4
                },
            },
    {
        match ip {
            IpAddress::V4(a) => {
                let changed: bool = match self.previous_ipv4 {
                    Some(prev) => prev != a,
                    None => true,
                };
                self.previous_ipv4 = Some(a);
                changed
            },
            IpAddress::V6(a) => {
                let changed: bool = match self.previous_ipv6 {
                    Some(prev) => prev != a,
                    None => true,
                };
                self.previous_ipv6 = Some(a);
                changed
            },
        }
    }
}

/// Some enabled zone has a subdomain covering the family.
pub open spec fn family_needed(configs: Seq<CfConfig>, family: crate::ip::IpVersion) -> bool {
    exists|i: int, j: int|
        0 <= i < configs.len() && 0 <= j < (#[trigger] configs[i]).subdomains@.len()
            && configs[i].enabled && policy_matches(
            (#[trigger] configs[i].subdomains@[j]).ip_version,
            family,
        )
}

/// Which families any enabled zone asks for, so that detection of an unneeded
/// family is skipped entirely.
pub fn needed_versions(configs: &Vec<CfConfig>) -> (r: (bool, bool))
    ensures
        r.0 == family_needed(configs@, crate::ip::IpVersion::V4),
        r.1 == family_needed(configs@, crate::ip::IpVersion::V6),
{
    let mut need_v4: bool = false;
    let mut need_v6: bool = false;
    let mut i: usize = 0;
    while i < configs.len()
        invariant
            0 <= i <= configs@.len(),
            need_v4 == exists|a: int, b: int|
                0 <= a < i && 0 <= b < (#[trigger] configs@[a]).subdomains@.len()
                    && configs@[a].enabled && policy_matches(
                    (#[trigger] configs@[a].subdomains@[b]).ip_version,
                    crate::ip::IpVersion::V4,
                ),
            need_v6 == exists|a: int, b: int|
                0 <= a < i && 0 <= b < (#[trigger] configs@[a]).subdomains@.len()
                    && configs@[a].enabled && policy_matches(
                    (#[trigger] configs@[a].subdomains@[b]).ip_version,
                    crate::ip::IpVersion::V6,
                ),
        decreases configs@.len() - i,
    {
        if configs[i].enabled {
            let mut j: usize = 0;
            while j < configs[i].subdomains.len()
                invariant
                    0 <= i < configs@.len(),
                    0 <= j <= configs@[i as int].subdomains@.len(),
                    configs@[i as int].enabled,
                    need_v4 == exists|a: int, b: int|
                        ((0 <= a < i && 0 <= b < (#[trigger] configs@[a]).subdomains@.len()) || (a
                            == i && 0 <= b < j && b < (#[trigger] configs@[a]).subdomains@.len()))
                            && configs@[a].enabled && policy_matches(
                            (#[trigger] configs@[a].subdomains@[b]).ip_version,
                            crate::ip::IpVersion::V4,
                        ),
                    need_v6 == exists|a: int, b: int|
                        ((0 <= a < i && 0 <= b < (#[trigger] configs@[a]).subdomains@.len()) || (a
                            == i && 0 <= b < j && b < (#[trigger] configs@[a]).subdomains@.len()))
                            && configs@[a].enabled && policy_matches(
                            (#[trigger] configs@[a].subdomains@[b]).ip_version,
                            crate::ip::IpVersion::V6,
                        ),
                decreases configs@[i as int].subdomains@.len() - j,
            {
                match configs[i].subdomains[j].ip_version {
                    crate::sync::IpVersion::V4 => {
                        need_v4 = true;
                    },
                    crate::sync::IpVersion::V6 => {
                        need_v6 = true;
                    },
                    crate::sync::IpVersion::Both => {
                        need_v4 = true;
                        need_v6 = true;
                    },
                }
                j = j + 1;
            }
        }
        i = i + 1;
    }
    (need_v4, need_v6)
}

} // verus!
