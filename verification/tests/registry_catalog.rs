//! Tests of the registry catalog, its selection functions and URL building.

use pkg_check::registry::{
    all_registries, browse_url, check_url, popular_registries, registries_by_ids,
    registries_by_languages, registry_info, registry_infos, resolve_registries, AvailableSignal,
    Registry,
};

#[test]
fn catalog_has_29_registries() {
    assert_eq!(all_registries().len(), 29);
}

#[test]
fn catalog_ids_are_distinct() {
    let regs = all_registries();
    for i in 0..regs.len() {
        for j in (i + 1)..regs.len() {
            assert_ne!(regs[i].id, regs[j].id);
        }
    }
}

#[test]
fn catalog_has_ten_popular_registries() {
    let regs = all_registries();
    assert_eq!(popular_registries(&regs).len(), 10);
}

#[test]
fn popular_subset_is_the_popular_flagged_ones() {
    let regs = all_registries();
    let popular = popular_registries(&regs);
    assert!(popular.iter().all(|r| r.popular));
    let expected: Vec<&str> = regs
        .iter()
        .filter(|r| r.popular)
        .map(|r| r.id.as_str())
        .collect();
    let got: Vec<&str> = popular.iter().map(|r| r.id.as_str()).collect();
    assert_eq!(got, expected);
}

#[test]
fn selection_by_ids_keeps_catalog_order() {
    let regs = all_registries();
    let ids = vec!["pypi".to_string(), "npm".to_string()];
    let picked = registries_by_ids(&regs, &ids);
    let got: Vec<&str> = picked.iter().map(|r| r.id.as_str()).collect();
    assert_eq!(got, vec!["npm", "pypi"]);
}

#[test]
fn selection_by_unknown_id_is_empty() {
    let regs = all_registries();
    let ids = vec!["no_such_registry".to_string()];
    assert!(registries_by_ids(&regs, &ids).is_empty());
}

#[test]
fn selection_by_language_finds_rust() {
    let regs = all_registries();
    let langs = vec!["rust".to_string()];
    let picked = registries_by_languages(&regs, &langs);
    let got: Vec<&str> = picked.iter().map(|r| r.id.as_str()).collect();
    assert_eq!(got, vec!["crates"]);
}

#[test]
fn selection_by_language_finds_python_registries() {
    let regs = all_registries();
    let langs = vec!["python".to_string()];
    let picked = registries_by_languages(&regs, &langs);
    let got: Vec<&str> = picked.iter().map(|r| r.id.as_str()).collect();
    assert_eq!(got, vec!["pypi", "conda"]);
}

#[test]
fn resolve_precedence_ids_beat_the_all_flag() {
    let regs = all_registries();
    let ids = vec!["npm".to_string()];
    let picked = resolve_registries(&regs, true, Some(&ids), None);
    let got: Vec<&str> = picked.iter().map(|r| r.id.as_str()).collect();
    assert_eq!(got, vec!["npm"]);
}

#[test]
fn resolve_precedence_languages_beat_the_all_flag() {
    let regs = all_registries();
    let langs = vec!["rust".to_string()];
    let picked = resolve_registries(&regs, true, None, Some(&langs));
    let got: Vec<&str> = picked.iter().map(|r| r.id.as_str()).collect();
    assert_eq!(got, vec!["crates"]);
}

#[test]
fn resolve_all_flag_alone_selects_the_whole_table() {
    let regs = all_registries();
    let picked = resolve_registries(&regs, true, None, None);
    assert_eq!(picked.len(), regs.len());
}

#[test]
fn resolve_precedence_ids_beat_languages() {
    let regs = all_registries();
    let ids = vec!["npm".to_string()];
    let langs = vec!["rust".to_string()];
    let picked = resolve_registries(&regs, false, Some(&ids), Some(&langs));
    let got: Vec<&str> = picked.iter().map(|r| r.id.as_str()).collect();
    assert_eq!(got, vec!["npm"]);
}

#[test]
fn resolve_by_languages_when_no_ids_are_given() {
    let regs = all_registries();
    let langs = vec!["haskell".to_string()];
    let picked = resolve_registries(&regs, false, None, Some(&langs));
    let got: Vec<&str> = picked.iter().map(|r| r.id.as_str()).collect();
    assert_eq!(got, vec!["hackage"]);
}

#[test]
fn resolve_defaults_to_popular() {
    let regs = all_registries();
    let picked = resolve_registries(&regs, false, None, None);
    assert_eq!(picked.len(), 10);
    assert!(picked.iter().all(|r| r.popular));
}

#[test]
fn check_url_substitutes_the_name() {
    let regs = all_registries();
    let npm = regs.iter().find(|r| r.id == "npm").unwrap();
    assert_eq!(
        check_url(npm, "left-pad"),
        "https://registry.npmjs.org/left-pad"
    );
}

#[test]
fn check_url_lowercases_for_nuget() {
    let regs = all_registries();
    let nuget = regs.iter().find(|r| r.id == "nuget").unwrap();
    assert_eq!(
        check_url(nuget, "Newtonsoft.Json"),
        "https://api.nuget.org/v3-flatcontainer/newtonsoft.json/index.json"
    );
}

#[test]
fn browse_url_keeps_the_name_case() {
    let regs = all_registries();
    let nuget = regs.iter().find(|r| r.id == "nuget").unwrap();
    assert_eq!(
        browse_url(nuget, "Newtonsoft.Json"),
        "https://www.nuget.org/packages/Newtonsoft.Json"
    );
}

#[test]
fn snapcraft_carries_its_device_series_header() {
    let regs = all_registries();
    let snap = regs.iter().find(|r| r.id == "snapcraft").unwrap();
    assert_eq!(
        snap.headers,
        vec![("Snap-Device-Series".to_string(), "16".to_string())]
    );
}

#[test]
fn chocolatey_uses_the_xml_signal() {
    let regs = all_registries();
    let choco = regs.iter().find(|r| r.id == "chocolatey").unwrap();
    assert_eq!(choco.signal, AvailableSignal::XmlNoEntry);
}

#[test]
fn wordpress_themes_uses_the_null_or_error_signal() {
    let regs = all_registries();
    let wp = regs.iter().find(|r| r.id == "wordpress_themes").unwrap();
    assert_eq!(wp.signal, AvailableSignal::NullOrError);
}

#[test]
fn registry_info_copies_the_descriptor_fields() {
    let regs = all_registries();
    let crates_io: &Registry = regs.iter().find(|r| r.id == "crates").unwrap();
    let info = registry_info(crates_io);
    assert_eq!(info.id, "crates");
    assert_eq!(info.name, "crates.io");
    assert_eq!(info.ecosystem, "Rust");
    assert_eq!(info.languages, vec!["rust".to_string()]);
}

#[test]
fn registry_infos_lists_every_registry() {
    let regs = all_registries();
    let infos = registry_infos(&regs);
    assert_eq!(infos.len(), regs.len());
    for (info, reg) in infos.iter().zip(regs.iter()) {
        assert_eq!(info.id, reg.id);
    }
}
