use vstd::prelude::*;
use vstd::string::StringExecFns;

verus! {

/// A release version: the three numeric components of a semantic version.
/// Releases are ordered and deduplicated by these components alone.
#[derive(Clone, Copy, Debug, PartialEq, Eq, Structural)]
pub struct Version {
    pub major: u64,
    pub minor: u64,
    pub patch: u64,
}

/// Lexicographic order on the numeric components.
pub open spec fn spec_version_lt(a: Version, b: Version) -> bool {
    ||| a.major < b.major
    ||| (a.major == b.major && a.minor < b.minor)
    ||| (a.major == b.major && a.minor == b.minor && a.patch < b.patch)
}

impl Version {
    pub fn new(major: u64, minor: u64, patch: u64) -> (r: Self)
        ensures
            r == (Version { major, minor, patch }),
    {
        Version { major, minor, patch }
    }

    /// Strict order test: `self` precedes `other`.
    pub fn lt(&self, other: &Version) -> (r: bool)
        ensures
            r == spec_version_lt(*self, *other),
    {
        if self.major != other.major {
            self.major < other.major
        } else if self.minor != other.minor {
            self.minor < other.minor
        } else {
            self.patch < other.patch
        }
    }

    pub fn eq_version(&self, other: &Version) -> (r: bool)
        ensures
            r == (*self == *other),
    {
        self.major == other.major && self.minor == other.minor && self.patch == other.patch
    }
}

/// A build target a release was published for, named by its triple.
#[derive(Clone, Debug, PartialEq, Eq)]
pub struct Target {
    pub name: String,
}

/// Failures of the package-index queries.
#[derive(Clone, Debug, PartialEq, Eq)]
pub enum IndexError {
    /// The package has no releases at all; carries the package id's text.
    NoReleases(String),
    /// No release was published for this target.
    MissingTarget(Target),
}

/// Identity of a package: its group and its name.
#[derive(Clone, Debug, PartialEq, Eq)]
pub struct PackageId {
    pub name: String,
    pub group: String,
}

/// The id's text form, `group/name`.
pub open spec fn spec_package_id_text(name: Seq<char>, group: Seq<char>) -> Seq<char> {
    group + seq!['/'] + name
}

/// Kind of content a package distributes, deciding how installers place it.
#[derive(Clone, Copy, Debug, PartialEq, Eq, Structural)]
pub enum PackageKind {
    Binary,
}

/// One published version of a package, with the targets it was built for.
#[derive(Clone, Debug, PartialEq, Eq)]
pub struct Release {
    /// The version this release holds.
    pub version: Version,
    /// A yanked release must never be downloaded.
    pub yanked: bool,
    /// Targets published under this version.
    pub targets: Vec<Target>,
}

/// Whether a release was published for target `t`.
pub open spec fn spec_has_target(rel: Release, t: Seq<char>) -> bool {
    exists|k: int| 0 <= k < rel.targets@.len() && (#[trigger] rel.targets@[k]).name@ == t
}

impl Release {
    pub fn new(version: Version, target: Target) -> (r: Self)
        ensures
            r.version == version,
            !r.yanked,
            r.targets@.len() == 1,
            r.targets@[0] == target,
    {
        let mut targets = Vec::new();
        targets.push(target);
        Release { version, yanked: false, targets }
    }

    /// Add a target to this release; a target already present is left
    /// alone.
    pub fn add_target(&mut self, target: Target)
        ensures
            final(self).version == old(self).version,
            final(self).yanked == old(self).yanked,
            spec_has_target(*old(self), target.name@) ==> final(self).targets@ == old(self).targets@,
            !spec_has_target(*old(self), target.name@) ==> final(self).targets@ == old(self).targets@.push(target),
    {
        if !self.target_exists_ref(&target) {
            self.targets.push(target);
        }
    }

    /// Whether this release was published for `target`.
    pub fn target_exists(&self, target: Target) -> (r: bool)
        ensures
            r == spec_has_target(*self, target.name@),
    {
        self.target_exists_ref(&target)
    }

    fn target_exists_ref(&self, target: &Target) -> (r: bool)
        ensures
            r == spec_has_target(*self, target.name@),
    {
        let n = self.targets.len();
        let mut k: usize = 0;
        while k < n
            invariant
                n == self.targets@.len(),
                0 <= k <= n,
                forall|j: int| 0 <= j < k ==> (#[trigger] self.targets@[j]).name@ != target.name@,
            decreases n - k,
        {
            if self.targets[k].name == target.name {
                return true;
            }
            k += 1;
        }
        false
    }
}

/// Releases are kept strictly sorted by version, oldest first; versions are
/// unique.
pub open spec fn spec_releases_sorted(s: Seq<Release>) -> bool {
    forall|i: int, j: int|
        0 <= i < j < s.len() ==> spec_version_lt(
            (#[trigger] s[i]).version,
            (#[trigger] s[j]).version,
        )
}

/// Whether some release in `s` holds exactly version `v`.
pub open spec fn spec_has_version(s: Seq<Release>, v: Version) -> bool {
    exists|i: int| 0 <= i < s.len() && (#[trigger] s[i]).version == v
}

/// The order on versions is total: two versions are ordered one way or the
/// other, or they are the same.
pub proof fn lemma_version_order_total(a: Version, b: Version)
    ensures
        spec_version_lt(a, b) || spec_version_lt(b, a) || a == b,
{
}

/// Inserting a release between everything below its version and everything
/// above it keeps the list sorted.
proof fn lemma_sorted_insert(s: Seq<Release>, idx: int, rel: Release)
    requires
        spec_releases_sorted(s),
        0 <= idx <= s.len(),
        forall|j: int| 0 <= j < idx ==> spec_version_lt((#[trigger] s[j]).version, rel.version),
        forall|j: int| idx <= j < s.len() ==> spec_version_lt(rel.version, (#[trigger] s[j]).version),
    ensures
        spec_releases_sorted(s.insert(idx, rel)),
{
    let t = s.insert(idx, rel);
    assert forall|i: int, j: int| 0 <= i < j < t.len() implies spec_version_lt(
        (#[trigger] t[i]).version,
        (#[trigger] t[j]).version,
    ) by {
        assert(forall|k: int| 0 <= k < idx ==> #[trigger] t[k] == s[k]);
        assert(t[idx] == rel);
        assert(forall|k: int| idx < k < t.len() ==> #[trigger] t[k] == s[k - 1]);
    }
}

/// A single published item in the registry: its identity, its kind, its
/// descriptive fields, and its releases, kept sorted by version.
#[derive(Clone, Debug, PartialEq, Eq)]
pub struct Package {
    /// The unique name of this package.
    pub name: String,
    /// The group that published the package.
    pub group: String,
    /// The kind of content distributed.
    pub kind: PackageKind,
    pub author: Option<String>,
    pub description: Option<String>,
    pub repository: Option<String>,
    /// The published releases, strictly sorted by version.
    pub releases: Vec<Release>,
}

impl Package {
    pub open spec fn wf(&self) -> bool {
        spec_releases_sorted(self.releases@)
    }

    /// A fresh binary package with no releases yet.
    pub fn new_binary(id: &PackageId, author: String, desc: String, repo: String) -> (r: Self)
        ensures
            r.name@ == id.name@,
            r.group@ == id.group@,
            r.kind == PackageKind::Binary,
            r.author == Some(author),
            r.description == Some(desc),
            r.repository == Some(repo),
            r.releases@.len() == 0,
            r.wf(),
    {
        Package {
            name: id.name.clone(),
            group: id.group.clone(),
            kind: PackageKind::Binary,
            author: Some(author),
            description: Some(desc),
            repository: Some(repo),
            releases: Vec::new(),
        }
    }

    /// This package's identity.
    pub fn package_id(&self) -> (r: PackageId)
        ensures
            r.name@ == self.name@,
            r.group@ == self.group@,
    {
        PackageId { name: self.name.clone(), group: self.group.clone() }
    }

    /// The identity's text form, `group/name`.
    pub fn package_id_string(&self) -> (r: String)
        ensures
            r@ == spec_package_id_text(self.name@, self.group@),
    {
        let mut s = self.group.clone();
        s.append("/");
        s.append(self.name.as_str());
        proof {
            reveal_strlit("/");
            assert("/"@ =~= seq!['/']);
            assert(s@ =~= spec_package_id_text(self.name@, self.group@));
        }
        s
    }

    /// The latest release: the last of the sorted list.  A package without
    /// releases answers `NoReleases` with its id's text.
    pub fn latest_release(&self) -> (r: Result<&Release, IndexError>)
        requires
            self.wf(),
        ensures
            self.releases@.len() > 0 ==> (r matches Ok(rel) && *rel == self.releases@.last()
                && (forall|i: int|
                0 <= i < self.releases@.len() ==> !spec_version_lt(
                    self.releases@.last().version,
                    (#[trigger] self.releases@[i]).version,
                ))),
            self.releases@.len() == 0 ==> (r matches Err(IndexError::NoReleases(s)) && s@
                == spec_package_id_text(self.name@, self.group@)),
    {
        if self.releases.len() == 0 {
            Err(IndexError::NoReleases(self.package_id_string()))
        } else {
            let rel = &self.releases[self.releases.len() - 1];
            proof {
                assert forall|i: int| 0 <= i < self.releases@.len() implies !spec_version_lt(
                    self.releases@.last().version,
                    (#[trigger] self.releases@[i]).version,
                ) by {
                    if i < self.releases@.len() - 1 {
                        assert(spec_version_lt(
                            self.releases@[i].version,
                            self.releases@.last().version,
                        ));
                    }
                    lemma_version_order_total(
                        self.releases@.last().version,
                        self.releases@[i].version,
                    );
                }
            }
            Ok(rel)
        }
    }

    /// The latest release published for `target`, searching newest first.
    pub fn latest_release_for_target(&self, target: Target) -> (r: Result<&Release, IndexError>)
        ensures
            r matches Ok(rel) ==> exists|i: int|
                0 <= i < self.releases@.len() && *rel == (#[trigger] self.releases@[i])
                    && spec_has_target(self.releases@[i], target.name@) && (forall|j: int|
                    i < j < self.releases@.len() ==> !spec_has_target(
                        #[trigger] self.releases@[j],
                        target.name@,
                    )),
            r matches Err(e) ==> e == IndexError::MissingTarget(target) && (forall|j: int|
                0 <= j < self.releases@.len() ==> !spec_has_target(
                    #[trigger] self.releases@[j],
                    target.name@,
                )),
    {
        let n = self.releases.len();
        let mut k: usize = n;
        while k > 0
            invariant
                n == self.releases@.len(),
                0 <= k <= n,
                forall|j: int|
                    k <= j < n ==> !spec_has_target(#[trigger] self.releases@[j], target.name@),
            decreases k,
        {
            k -= 1;
            if self.releases[k].target_exists_ref(&target) {
                return Ok(&self.releases[k]);
            }
        }
        Err(IndexError::MissingTarget(target))
    }

    /// Add a release.  A release of the same version only gains the target;
    /// a new version is inserted at its place in the sorted order.  Version
    /// identity is decided by the numeric components alone.
    #[verifier::loop_isolation(false)]
    pub fn add_release(&mut self, version: Version, target: Target) -> (r: Result<
        (),
        IndexError,
    >)
        requires
            old(self).wf(),
        ensures
            r is Ok,
            final(self).wf(),
            final(self).name == old(self).name,
            final(self).group == old(self).group,
            final(self).kind == old(self).kind,
            spec_has_version(old(self).releases@, version) ==> exists|i: int|
                0 <= i < old(self).releases@.len() && (#[trigger] old(self).releases@[i]).version
                    == version && final(self).releases@.len() == old(self).releases@.len() && (
                forall|j: int|
                    0 <= j < old(self).releases@.len() && j != i ==> final(self).releases@[j] == old(self).releases@[j]) && final(self).releases@[i].version == version && final(self).releases@[i].yanked == old(self).releases@[i].yanked && (spec_has_target(
                    old(self).releases@[i],
                    target.name@,
                ) ==> final(self).releases@[i].targets@ == old(self).releases@[i].targets@) && (
                !spec_has_target(old(self).releases@[i], target.name@) ==> final(self).releases@[i].targets@ == old(self).releases@[i].targets@.push(target)),
            !spec_has_version(old(self).releases@, version) ==> exists|idx: int|
                0 <= idx <= old(self).releases@.len() && final(self).releases@ == old(self).releases@.insert(idx, final(self).releases@[idx]) && (#[trigger] final(self).releases@[idx]).version == version && !final(self).releases@[idx].yanked && final(self).releases@[idx].targets@ =~= seq![target],
    {
        let ghost pre = self.releases@;
        let n = self.releases.len();
        let mut i: usize = 0;
        while i < n
            invariant
                *self == *old(self),
                n == pre.len(),
                0 <= i <= n,
                forall|j: int| 0 <= j < i ==> (#[trigger] pre[j]).version != version,
            decreases n - i,
        {
            if self.releases[i].version.eq_version(&version) {
                let mut rel = self.releases.remove(i);
                rel.add_target(target);
                let ghost grel = rel;
                self.releases.insert(i, rel);
                proof {
                    assert(self.releases@ =~= pre.update(i as int, grel));
                    assert(grel.version == version);
                    assert forall|a: int, b: int|
                        0 <= a < b < self.releases@.len() implies spec_version_lt(
                        (#[trigger] self.releases@[a]).version,
                        (#[trigger] self.releases@[b]).version,
                    ) by {
                        assert(spec_version_lt(pre[a].version, pre[b].version));
                        assert(self.releases@[a].version == pre[a].version);
                        assert(self.releases@[b].version == pre[b].version);
                    }
                    assert(self.releases@[i as int] == grel);
                    assert((spec_has_target(pre[i as int], target.name@) ==> self.releases@[
                        i as int
                    ].targets@ == pre[i as int].targets@) && (!spec_has_target(
                        pre[i as int],
                        target.name@,
                    ) ==> self.releases@[i as int].targets@ == pre[i as int].targets@.push(
                        target,
                    )));
                }
                return Ok(());
            }
            i += 1;
        }
        // No release holds this version: insert a fresh one at its place.
        let mut idx: usize = 0;
        while idx < n && !version.lt(&self.releases[idx].version)
            invariant
                *self == *old(self),
                n == pre.len(),
                0 <= idx <= n,
                forall|j: int| 0 <= j < idx ==> !spec_version_lt(version, (#[trigger] pre[j]).version),
            decreases n - idx,
        {
            idx += 1;
        }
        let rel = Release::new(version, target);
        proof {
            assert forall|j: int| 0 <= j < idx implies spec_version_lt(
                (#[trigger] pre[j]).version,
                rel.version,
            ) by {
                lemma_version_order_total(pre[j].version, rel.version);
            }
            assert forall|j: int| idx <= j < pre.len() implies spec_version_lt(
                rel.version,
                (#[trigger] pre[j]).version,
            ) by {
                if idx < j {
                    assert(spec_version_lt(pre[idx as int].version, pre[j].version));
                }
            }
            lemma_sorted_insert(pre, idx as int, rel);
        }
        let ghost grel = rel;
        self.releases.insert(idx, rel);
        proof {
            assert(self.releases@ == pre.insert(idx as int, grel));
            assert(self.releases@[idx as int] == grel);
            assert(self.releases@[idx as int].version == version);
            assert(self.releases@[idx as int].targets@ =~= seq![target]);
        }
        Ok(())
    }
}

/// Metadata of the index: the oldest client version the index still admits.
#[derive(Clone, Copy, Debug, PartialEq, Eq, Structural)]
pub struct IndexMetadata {
    /// The minimum version of a client which must be used in order to
    /// properly access the index.
    pub minimum_client_version: Version,
}

impl IndexMetadata {
    /// Whether a client of `client_version` must update before using the
    /// index: true exactly when the index demands a newer client.
    pub fn update_required(&self, client_version: &Version) -> (r: bool)
        ensures
            r == spec_version_lt(*client_version, self.minimum_client_version),
    {
        client_version.lt(&self.minimum_client_version)
    }
}

/// The index as a whole: its own metadata.
#[derive(Clone, Copy, Debug, PartialEq, Eq, Structural)]
pub struct FluvioIndex {
    pub metadata: IndexMetadata,
}

} // verus!
