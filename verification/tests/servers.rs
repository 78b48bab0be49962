use master_time::global_servers::{built_in, GlobalServerCatalog};
use master_time::servers::{Category, IpAddress, ProfileError, ServerCatalog, ServerProfile};

#[test]
fn validates_hostname_and_optional_fallback() {
    let profile = ServerProfile::new(
        "Local",
        "Time.Example.test",
        Some(IpAddress::v4(192, 0, 2, 1)),
    )
    .unwrap();
    assert_eq!(profile.hostname(), "Time.Example.test");
    assert_eq!(profile.ip_fallback(), Some(IpAddress::V4(0xC000_0201)));
    assert!(ServerProfile::new("bad", "-example.test", None).is_err());
}

#[test]
fn profile_errors_follow_the_checks_in_order() {
    assert_eq!(ServerProfile::new(" ", "a.test", None), Err(ProfileError::EmptyName));
    assert_eq!(ServerProfile::new("a\u{7}", "a.test", None), Err(ProfileError::InvalidName));
    assert_eq!(ServerProfile::new("a", "", None), Err(ProfileError::EmptyHostname));
    assert_eq!(
        ServerProfile::new("a", &"a".repeat(254), None),
        Err(ProfileError::HostnameTooLong)
    );
    assert_eq!(ServerProfile::new("a", "tíme.test", None), Err(ProfileError::HostnameTooLong));
    assert_eq!(ServerProfile::new("a", ".a.test", None), Err(ProfileError::InvalidHostname));
    assert_eq!(ServerProfile::new("a", "a..test", None), Err(ProfileError::InvalidHostnameLabel));
    assert_eq!(ServerProfile::new("a", "a_b.test", None), Err(ProfileError::InvalidHostname));
    assert_eq!(ProfileError::HostnameTooLong.to_string(), "hostname is too long");
    let a = ServerProfile::new("a", "a.test", None).unwrap();
    let b = ServerProfile::new("a", "a.test", Some(IpAddress::V6(1))).unwrap();
    assert!(a.same_as(&a.clone()));
    assert!(!a.same_as(&b));
}

#[test]
fn built_in_catalog_is_small_and_valid() {
    let catalog = ServerCatalog::built_in();
    assert_eq!(catalog.entries().len(), 6);
    assert!(catalog
        .entries()
        .iter()
        .all(|entry| !entry.profile().hostname().is_empty()));
}

#[test]
fn filters_category_and_search_case_insensitively() {
    let catalog = ServerCatalog::built_in();
    let standards = catalog.filter(Some(Category::Standards), "NIST");
    assert_eq!(standards.len(), 1);
    assert_eq!(standards[0].profile().hostname(), "time.nist.gov");
    assert_eq!(catalog.filter(None, "CLOUDFLARE").len(), 1);
    assert_eq!(catalog.filter(Some(Category::Pool), "").len(), 2);
    assert_eq!(catalog.filter(None, "ntp pools").len(), 2);
}

#[test]
fn catalog_entries_are_valid_and_cover_sources() {
    let catalog = GlobalServerCatalog::built_in();

    assert!(catalog.entries().len() >= 15);
    assert!(Category::all().iter().all(|category| {
        catalog
            .entries()
            .iter()
            .any(|entry| entry.category() == *category)
    }));
    assert!(catalog.entries().iter().all(|entry| {
        !entry.profile().name().trim().is_empty()
            && !entry.profile().hostname().trim().is_empty()
            && entry.profile().ip_fallback().is_none()
    }));
    assert!(catalog
        .entries()
        .iter()
        .all(|entry| entry.profile().hostname().contains('.')));
    assert!(catalog.entries().iter().all(|entry| ServerProfile::new(
        entry.profile().name(),
        entry.profile().hostname(),
        None
    )
    .is_ok()));
}

#[test]
fn filtering_limits_results_to_category() {
    let catalog = GlobalServerCatalog::built_in();
    let pools = catalog.filter(Some(Category::Pool), "");

    assert!(pools.len() >= 6);
    assert!(pools.iter().all(|entry| entry.category() == Category::Pool));
    assert!(catalog.filter(Some(Category::Standards), "pool").is_empty());
}

#[test]
fn search_is_case_insensitive_and_matches_hostnames() {
    let catalog = GlobalServerCatalog::built_in();

    let cloudflare = catalog.filter(None, "CLOUDFLARE");
    assert_eq!(cloudflare.len(), 1);
    assert_eq!(cloudflare[0].profile().hostname(), "time.cloudflare.com");

    let japan = catalog.filter(None, "NTP.NICT.JP");
    assert_eq!(japan.len(), 1);
    assert_eq!(japan[0].profile().name(), "NICT");
    assert_eq!(built_in().entries().len(), catalog.entries().len());
    assert_eq!(catalog.filter(None, "metrology").len(), 1);
}

#[test]
fn an_empty_query_keeps_every_entry_of_the_category() {
    let catalog = GlobalServerCatalog::built_in();
    assert_eq!(catalog.filter(None, "").len(), catalog.entries().len());
    let pools = catalog
        .entries()
        .iter()
        .filter(|entry| entry.category() == Category::Pool)
        .count();
    assert_eq!(catalog.filter(Some(Category::Pool), "").len(), pools);
    let local = ServerCatalog::built_in();
    assert_eq!(local.filter(None, "").len(), local.entries().len());
}
