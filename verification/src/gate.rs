//! The permission gate and the host-group configuration it reads.

use crate::team::PermissionGroup;
use vstd::prelude::*;
use vstd::string::*;

verus! {

/// What the platform answered when asked whether `actor` holds `group`
/// within `community`.
#[derive(Clone, Copy, Debug)]
pub struct Membership {
    pub actor: u64,
    pub community: u64,
    pub group: u64,
    pub holds: bool,
}

/// Whether an actor with the membership `actor` may perform a privileged
/// action when `host_group` is the configured host group.
pub open spec fn authorized(actor: Membership, host_group: Option<u64>) -> bool {
    host_group == Some(actor.group) && actor.holds
}

/// The permission gate: true exactly when a host group is configured, the
/// membership answer is about that group, and the actor holds it.
pub fn is_authorized(actor: &Membership, host_group: Option<u64>) -> (allowed: bool)
    ensures
        allowed == authorized(*actor, host_group),
        host_group is None ==> !allowed,
{
    match host_group {
        Some(group) => group == actor.group && actor.holds,
        None => false,
    }
}

/// The display name that marks the host group.
pub open spec fn host_name() -> Seq<char> {
    "Host"@
}

/// The identifier of the first group in `groups` whose name is exactly
/// the host name, if any group has it.
pub open spec fn host_among(groups: Seq<PermissionGroup>) -> Option<u64>
    decreases groups.len(),
{
    if groups.len() == 0 {
        None
    } else if groups[0].name@ == host_name() {
        Some(groups[0].id)
    } else {
        host_among(groups.drop_first())
    }
}

/// Finds the host group among the permission groups of a community: the
/// first whose display name equals the host name, character for character.
pub fn find_host_role(groups: &Vec<PermissionGroup>) -> (found: Option<u64>)
    ensures
        found == host_among(groups@),
        found matches Some(id) ==> exists|i: int|
            0 <= i < groups@.len() && groups@[i].id == id && groups@[i].name@ == host_name() && forall|
                j: int,
            | 0 <= j < i ==> groups@[j].name@ != host_name(),
        found is None ==> forall|i: int| 0 <= i < groups@.len() ==> groups@[i].name@ != host_name(),
{
    let host = String::from_str("Host");
    let mut i: usize = 0;
    assert(groups@.skip(0) =~= groups@);
    while i < groups.len()
        invariant
            i <= groups@.len(),
            host@ == host_name(),
            host_among(groups@) == host_among(groups@.skip(i as int)),
            forall|j: int| 0 <= j < i ==> groups@[j].name@ != host_name(),
        decreases groups@.len() - i,
    {
        assert(groups@.skip(i as int)[0] == groups@[i as int]);
        if groups[i].name == host {
            return Some(groups[i].id);
        }
        proof {
            assert(groups@.skip(i as int).drop_first() =~= groups@.skip(i as int + 1));
        }
        i += 1;
    }
    None
}

/// The host group of the active community, once it has been resolved.
pub struct HostRoleConfig {
    host: Option<u64>,
}

impl View for HostRoleConfig {
    type V = Option<u64>;

    closed spec fn view(&self) -> Option<u64> {
        self.host
    }
}

impl HostRoleConfig {
    /// A configuration with no host group.
    pub fn new() -> (config: Self)
        ensures
            config@ is None,
    {
        HostRoleConfig { host: None }
    }

    /// The configured host group, if any.
    pub fn get(&self) -> (host: Option<u64>)
        ensures
            host == self@,
    {
        self.host
    }

    /// Records `group` as the host group.
    pub fn set(&mut self, group: u64)
        ensures
            final(self)@ == Some(group),
    {
        self.host = Some(group);
    }

    /// Takes in the permission groups of a community that has just been
    /// synchronised: its host group, if it has one, replaces what was
    /// recorded; otherwise the configuration stays as it was.
    pub fn sync(&mut self, groups: &Vec<PermissionGroup>)
        ensures
            final(self)@ == match host_among(groups@) {
                Some(id) => Some(id),
                None => old(self)@,
            },
    {
        match find_host_role(groups) {
            Some(id) => {
                self.host = Some(id);
            },
            None => {},
        }
    }
}

} // verus!
