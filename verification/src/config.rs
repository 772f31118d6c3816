use vstd::prelude::*;

verus! {

/// Selects whether the leader-offset listener fires on high-watermark or
/// log-end-offset changes.
#[derive(Clone, Copy, Debug, PartialEq, Eq, Structural)]
pub enum Isolation {
    ReadCommitted,
    ReadUncommitted,
}

/// Static configuration of one mirrored replica, fixed for the controller's
/// lifetime.
#[derive(Clone, Debug)]
pub struct RemotePartitionConfig {
    /// Identifier of the home cluster this replica mirrors to.
    pub home_cluster: String,
    /// Endpoint the connector dials.
    pub home_spu_endpoint: String,
    /// Id of the home SPU owning the peer replica.
    pub home_spu_id: i32,
}

/// Descriptor of a home cluster, obtained by lookup from the local mirror
/// registry.  Immutable once resolved.
#[derive(Clone, Debug)]
pub struct Home {
    /// Identifier of the home cluster itself.
    pub id: String,
    /// Identifier under which this remote cluster is known at home; it is
    /// echoed in the handshake of every fresh connection.
    pub remote_id: String,
}

/// Descriptor of a remote cluster as the registry records it.
#[derive(Clone, Debug)]
pub struct Remote {
    pub id: String,
}

/// Tagged role of a registry entry.
#[derive(Clone, Debug)]
pub enum MirrorType {
    Home(Home),
    Remote(Remote),
}

/// One registry entry: a cluster name and its mirror role.
#[derive(Clone, Debug)]
pub struct MirrorSpec {
    pub mirror_type: MirrorType,
}

/// A named registry entry.
#[derive(Clone, Debug)]
pub struct MirrorRegistryEntry {
    pub name: String,
    pub spec: MirrorSpec,
}

/// What a lookup of `cluster` yields on `entries`: the `Home` descriptor of
/// the first entry of that name, provided its role is `Home`.
pub open spec fn spec_lookup_home(entries: Seq<MirrorRegistryEntry>, cluster: Seq<char>) -> Option<
    Home,
>
    decreases entries.len(),
{
    if entries.len() == 0 {
        None
    } else if entries[0].name@ == cluster {
        match entries[0].spec.mirror_type {
            MirrorType::Home(h) => Some(h),
            MirrorType::Remote(_) => None,
        }
    } else {
        spec_lookup_home(entries.skip(1), cluster)
    }
}

/// The local mirror registry: a snapshot of the cluster descriptors the
/// control plane has pushed to this SPU.
#[derive(Debug)]
pub struct MirrorRegistry {
    pub entries: Vec<MirrorRegistryEntry>,
}

impl MirrorRegistry {
    pub fn new() -> (r: Self)
        ensures
            r.entries@.len() == 0,
    {
        MirrorRegistry { entries: Vec::new() }
    }
}

} // verus!
