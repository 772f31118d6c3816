use mirror_remote::index::{
    FluvioIndex, IndexError, IndexMetadata, Package, PackageId, PackageKind, Release, Target,
    Version,
};

fn target(name: &str) -> Target {
    Target {
        name: name.to_string(),
    }
}

fn test_package() -> Package {
    let id = PackageId {
        name: "fluvio".to_string(),
        group: "fluvio".to_string(),
    };
    Package::new_binary(
        &id,
        "Bob".to_string(),
        "A package".to_string(),
        "https://github.com".to_string(),
    )
}

#[test]
fn new_binary_has_no_releases() {
    let package = test_package();
    assert_eq!(package.name, "fluvio");
    assert_eq!(package.group, "fluvio");
    assert!(matches!(package.kind, PackageKind::Binary));
    assert_eq!(package.author.as_deref(), Some("Bob"));
    assert_eq!(package.description.as_deref(), Some("A package"));
    assert_eq!(package.repository.as_deref(), Some("https://github.com"));
    assert!(package.releases.is_empty());
}

#[test]
fn latest_release_of_empty_package_names_the_package() {
    let package = test_package();
    match package.latest_release() {
        Err(IndexError::NoReleases(id)) => assert_eq!(id, "fluvio/fluvio"),
        other => panic!("expected NoReleases, got {:?}", other),
    }
}

#[test]
fn releases_stay_sorted_by_version() {
    let mut package = test_package();
    package
        .add_release(Version::new(0, 2, 0), target("aarch64-apple-darwin"))
        .unwrap();
    package
        .add_release(Version::new(0, 1, 0), target("aarch64-apple-darwin"))
        .unwrap();
    package
        .add_release(Version::new(0, 3, 0), target("aarch64-apple-darwin"))
        .unwrap();

    let versions: Vec<Version> = package.releases.iter().map(|r| r.version).collect();
    assert_eq!(
        versions,
        vec![
            Version::new(0, 1, 0),
            Version::new(0, 2, 0),
            Version::new(0, 3, 0)
        ]
    );
    let latest = package.latest_release().unwrap();
    assert_eq!(latest.version, Version::new(0, 3, 0));
}

#[test]
fn adding_an_existing_version_only_extends_its_targets() {
    let mut package = test_package();
    package
        .add_release(Version::new(0, 1, 0), target("aarch64-apple-darwin"))
        .unwrap();
    package
        .add_release(Version::new(0, 1, 0), target("x86_64-unknown-linux-musl"))
        .unwrap();
    assert_eq!(package.releases.len(), 1);
    let release = &package.releases[0];
    assert!(release.target_exists(target("aarch64-apple-darwin")));
    assert!(release.target_exists(target("x86_64-unknown-linux-musl")));

    // The same target twice leaves the release alone.
    package
        .add_release(Version::new(0, 1, 0), target("x86_64-unknown-linux-musl"))
        .unwrap();
    assert_eq!(package.releases[0].targets.len(), 2);
}

#[test]
fn latest_release_for_target_picks_the_newest_match() {
    let mut package = test_package();
    package
        .add_release(Version::new(0, 1, 0), target("aarch64-apple-darwin"))
        .unwrap();
    package
        .add_release(Version::new(0, 2, 0), target("x86_64-unknown-linux-musl"))
        .unwrap();
    package
        .add_release(Version::new(0, 3, 0), target("x86_64-unknown-linux-musl"))
        .unwrap();

    let found = package
        .latest_release_for_target(target("x86_64-unknown-linux-musl"))
        .unwrap();
    assert_eq!(found.version, Version::new(0, 3, 0));
    let found = package
        .latest_release_for_target(target("aarch64-apple-darwin"))
        .unwrap();
    assert_eq!(found.version, Version::new(0, 1, 0));
    match package.latest_release_for_target(target("wasm32-unknown-unknown")) {
        Err(IndexError::MissingTarget(t)) => assert_eq!(t.name, "wasm32-unknown-unknown"),
        other => panic!("expected MissingTarget, got {:?}", other),
    }
}

#[test]
fn release_new_and_add_target() {
    let mut release = Release::new(Version::new(1, 2, 3), target("aarch64-apple-darwin"));
    assert_eq!(release.version, Version::new(1, 2, 3));
    assert!(!release.yanked);
    assert!(release.target_exists(target("aarch64-apple-darwin")));
    assert!(!release.target_exists(target("x86_64-unknown-linux-musl")));

    release.add_target(target("x86_64-unknown-linux-musl"));
    assert_eq!(release.targets.len(), 2);
    release.add_target(target("x86_64-unknown-linux-musl"));
    assert_eq!(release.targets.len(), 2);
}

#[test]
fn update_required_compares_client_against_minimum() {
    let metadata = IndexMetadata {
        minimum_client_version: Version::new(0, 7, 0),
    };
    assert!(metadata.update_required(&Version::new(0, 6, 9)));
    assert!(!metadata.update_required(&Version::new(0, 7, 0)));
    assert!(!metadata.update_required(&Version::new(1, 0, 0)));
}

#[test]
fn index_metadata_travels_with_the_index() {
    let index = FluvioIndex {
        metadata: IndexMetadata {
            minimum_client_version: Version::new(0, 7, 0),
        },
    };
    assert!(index.metadata.update_required(&Version::new(0, 5, 0)));
}

#[test]
fn version_order_is_lexicographic() {
    assert!(Version::new(0, 9, 9).lt(&Version::new(1, 0, 0)));
    assert!(Version::new(1, 0, 9).lt(&Version::new(1, 1, 0)));
    assert!(Version::new(1, 1, 0).lt(&Version::new(1, 1, 1)));
    assert!(!Version::new(1, 1, 1).lt(&Version::new(1, 1, 1)));
    assert!(!Version::new(2, 0, 0).lt(&Version::new(1, 9, 9)));
}
