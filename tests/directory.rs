use im::config::{first_folded_match, Config};
use im::error::Error;
use im::resolve::{launch_after_setup, plan_launch, remove_named, resolve_contact, Launch, Removal, Source};

fn directory_with_mom() -> Config {
    let mut c = Config::default();
    c.add_contact(
        "mom".to_string(),
        "+15551234567".to_string(),
        Some("Mom".to_string()),
    );
    c
}

#[test]
fn add_get_and_count() {
    let mut c = Config::default();
    assert_eq!(c.contact_count(), 0);
    c.add_contact("a".to_string(), "+1".to_string(), None);
    c.add_contact("b".to_string(), "+2".to_string(), Some("Bee".to_string()));
    assert_eq!(c.contact_count(), 2);
    c.add_contact("a".to_string(), "+3".to_string(), None);
    assert_eq!(c.contact_count(), 2);
    assert_eq!(c.get_contact("a").unwrap().identifier, "+3");
    assert_eq!(c.get_contact("b").unwrap().display_name.as_deref(), Some("Bee"));
    assert!(c.get_contact("A").is_none());
    let listed = c.list_contacts();
    assert_eq!(listed.len(), 2);
    assert_eq!(listed[0].0, "a");
    assert_eq!(listed[1].0, "b");
}

#[test]
fn remove_contact_reports_presence() {
    let mut c = directory_with_mom();
    assert!(!c.remove_contact("dad"));
    assert!(!c.remove_contact("Mom"));
    assert!(c.remove_contact("mom"));
    assert_eq!(c.contact_count(), 0);
    assert!(!c.remove_contact("mom"));
}

#[test]
fn defaults_are_set_and_read() {
    let mut c = Config::default();
    assert_eq!(c.default_contact(), None);
    assert_eq!(c.default_display_name(), None);
    c.set_default_contact("+15550000000".to_string());
    c.set_default_display_name("Pat".to_string());
    assert_eq!(c.default_contact(), Some("+15550000000".to_string()));
    assert_eq!(c.default_display_name().map(|s| s.as_str()), Some("Pat"));
}

#[test]
fn case_insensitive_lookup_finds_same_entry() {
    let mut c = Config::default();
    c.add_contact("Mom".to_string(), "+15551234567".to_string(), None);
    for query in ["mom", "MOM", "Mom"] {
        let (name, entry) = c.get_contact_case_insensitive(query).unwrap();
        assert_eq!(name, "Mom");
        assert_eq!(entry.identifier, "+15551234567");
    }
    assert!(c.get_contact_case_insensitive("dad").is_none());
}

#[test]
fn snapshot_copies_everything() {
    let mut c = directory_with_mom();
    c.set_default_contact("+1".to_string());
    let s = c.snapshot();
    assert_eq!(s.default_contact(), Some("+1".to_string()));
    assert_eq!(s.contact_count(), 1);
    assert_eq!(s.get_contact("mom").unwrap().identifier, "+15551234567");
}

#[test]
fn resolve_named_contact_case_insensitively() {
    let c = directory_with_mom();
    let r = resolve_contact(&Some("MOM".to_string()), &None, &c).ok().unwrap();
    assert_eq!(r.identifier, "+15551234567");
    assert_eq!(r.display_name, "Mom");
    match r.source {
        Source::Named { actual_name } => assert_eq!(actual_name, "mom"),
        _ => panic!("expected a named contact"),
    }
}

#[test]
fn resolve_override_formats_identifier() {
    let c = directory_with_mom();
    let r = resolve_contact(&Some("mom".to_string()), &Some("5550001111".to_string()), &c)
        .ok()
        .unwrap();
    assert_eq!(r.identifier, "+15550001111");
    assert_eq!(r.display_name, "5550001111");
    assert!(matches!(r.source, Source::Override));
}

#[test]
fn resolve_named_without_display_uses_number() {
    let mut c = Config::default();
    c.add_contact("dad".to_string(), "+15559876543".to_string(), None);
    let r = resolve_contact(&Some("Dad".to_string()), &None, &c).ok().unwrap();
    assert_eq!(r.display_name, "5559876543");
}

#[test]
fn resolve_missing_name_is_an_error() {
    let c = directory_with_mom();
    match resolve_contact(&Some("dad".to_string()), &None, &c) {
        Err(Error::Generic(m)) => assert_eq!(m, "Contact 'dad' not found in configuration"),
        _ => panic!("expected a not-found error"),
    }
}

#[test]
fn resolve_default_and_no_contact() {
    let mut c = Config::default();
    assert!(matches!(resolve_contact(&None, &None, &c), Err(Error::NoContact)));
    c.set_default_contact("+15551112222".to_string());
    let r = resolve_contact(&None, &None, &c).ok().unwrap();
    assert_eq!(r.identifier, "+15551112222");
    assert_eq!(r.display_name, "5551112222");
    assert!(matches!(r.source, Source::Default));
    c.set_default_display_name("Sam".to_string());
    let r = resolve_contact(&None, &None, &c).ok().unwrap();
    assert_eq!(r.display_name, "Sam");
}

#[test]
fn launch_falls_back_to_setup() {
    let c = Config::default();
    assert!(matches!(plan_launch(&None, &None, &c), Launch::Setup));
    assert!(matches!(plan_launch(&Some("x".to_string()), &None, &c), Launch::Fail(_)));
    assert!(matches!(launch_after_setup(&c), Launch::Fail(Error::NoContact)));
    let c = directory_with_mom();
    match plan_launch(&Some("Mom".to_string()), &None, &c) {
        Launch::Chat(r) => assert_eq!(r.identifier, "+15551234567"),
        _ => panic!("expected the chat"),
    }
}

#[test]
fn remove_named_matches_case_insensitively() {
    let mut c = directory_with_mom();
    c.add_contact("dad".to_string(), "+2".to_string(), None);
    match remove_named(&mut c, "MOM") {
        Removal::Removed { actual_name } => assert_eq!(actual_name, "mom"),
        Removal::NotFound => panic!("expected a removal"),
    }
    assert_eq!(c.contact_count(), 1);
    assert!(matches!(remove_named(&mut c, "mom"), Removal::NotFound));
    assert_eq!(c.contact_count(), 1);
}

#[test]
fn error_messages() {
    assert_eq!(Error::NoContact.message(), "No contact specified");
    assert_eq!(Error::Generic("boom".to_string()).message(), "boom");
}

#[test]
fn first_folded_match_finds_first_equal_key() {
    let keys = vec!["dad".to_string(), "mom".to_string(), "mom".to_string()];
    assert_eq!(first_folded_match(&keys, "mom"), Some(1));
    assert_eq!(first_folded_match(&keys, "dad"), Some(0));
    assert_eq!(first_folded_match(&keys, "Mom"), None);
    assert_eq!(first_folded_match(&Vec::new(), "mom"), None);
}
