use release_installer::error::InstallError;
use release_installer::model::{Asset, Release};
use release_installer::resolve::{
    labels, position, resolve, resolve_asset, resolve_release, Labelled,
};

fn named_asset(name: &str) -> Asset {
    Asset::new(name.to_string())
}

fn tagged_release(tag: &str, names: &[&str]) -> Release {
    Release::new(tag.to_string(), names.iter().map(|name| named_asset(name)).collect())
}

#[test]
fn labels_are_tags_and_names_in_order() {
    let releases = vec![tagged_release("v2", &["a.deb"]), tagged_release("v1", &[]), tagged_release("v2", &[])];
    assert_eq!(labels(&releases), vec!["v2", "v1", "v2"]);
    assert_eq!(labels(&releases[0].assets), vec!["a.deb"]);
    assert_eq!(labels(&releases[1].assets), Vec::<String>::new());
}

#[test]
fn label_of_a_release_is_its_tag_and_of_an_asset_its_name() {
    assert_eq!(tagged_release("v1.2", &["x"]).label(), "v1.2");
    assert_eq!(named_asset("tool.tar.gz").label(), "tool.tar.gz");
}

#[test]
fn every_asset_resolves_to_an_asset_of_its_name() {
    let chosen = tagged_release("v1", &["tool.deb", "tool.tar.gz", "tool", "tool.zip"]);
    for wanted in &chosen.assets {
        let found = resolve_asset(&chosen, &wanted.name).unwrap();
        assert_eq!(found.name, wanted.name);
        assert!(std::ptr::eq(found, wanted));
    }
}

#[test]
fn duplicate_names_resolve_to_the_first() {
    let chosen = tagged_release("v1", &["tool.deb", "other", "tool.deb"]);
    let found = resolve_asset(&chosen, "tool.deb").unwrap();
    assert!(std::ptr::eq(found, &chosen.assets[0]));
    let last = resolve_asset(&chosen, &chosen.assets[2].name).unwrap();
    assert_eq!(last.name, chosen.assets[2].name);
    assert!(std::ptr::eq(last, &chosen.assets[0]));
    assert_eq!(position(&chosen.assets, "tool.deb"), Some(0));
    assert_eq!(position(&chosen.assets, "other"), Some(1));
}

#[test]
fn duplicate_tags_resolve_to_the_first() {
    let releases = vec![
        tagged_release("v1", &["first"]),
        tagged_release("v2", &["second"]),
        tagged_release("v1", &["third"]),
    ];
    let found = resolve_release(&releases, "v1").unwrap();
    assert_eq!(found.assets, vec![named_asset("first")]);
    assert_eq!(resolve_release(&releases, "v2").unwrap().assets, vec![named_asset("second")]);
}

#[test]
fn unknown_label_is_not_found() {
    let releases = vec![tagged_release("v1", &["tool.deb"])];
    assert_eq!(resolve_release(&releases, "v3"), Err(InstallError::NotFound));
    assert_eq!(resolve_release(&releases, ""), Err(InstallError::NotFound));
    assert_eq!(resolve_release(&releases, "V1"), Err(InstallError::NotFound));
    assert_eq!(resolve_asset(&releases[0], "tool"), Err(InstallError::NotFound));
    assert_eq!(resolve_asset(&releases[0], "tool.deb "), Err(InstallError::NotFound));
    assert_eq!(position(&releases, "v3"), None);
}

#[test]
fn nothing_is_found_in_an_empty_list() {
    let none: Vec<Release> = Vec::new();
    assert_eq!(resolve_release(&none, "v1"), Err(InstallError::NotFound));
    assert_eq!(resolve(&none, "v1"), Err(InstallError::NotFound));
    assert_eq!(resolve_asset(&tagged_release("v1", &[]), "tool"), Err(InstallError::NotFound));
    assert_eq!(position(&none, ""), None);
}

#[test]
fn asset_is_resolved_within_the_given_release_only() {
    let releases = vec![tagged_release("v1", &["old.deb"]), tagged_release("v2", &["new.deb"])];
    let chosen = resolve_release(&releases, "v2").unwrap();
    assert_eq!(resolve_asset(chosen, "old.deb"), Err(InstallError::NotFound));
    assert_eq!(resolve_asset(chosen, "new.deb"), Ok(&releases[1].assets[0]));
}
