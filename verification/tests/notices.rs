//! The third-party notices, and the sorting under them.
use punktfunk_webos::metadata::{metadata_notices, metadata_packages, read_metadata, Entry, Metadata};
use punktfunk_webos::notices::{
    bundled_components, find_license_files, is_licence_name, list_packages, notices_of, order_packages,
    third_party_notices, Component, LicenceFile, Package, TARGET,
};
use punktfunk_webos::sorting::{sorted_order, sorted_pairs};
use punktfunk_webos::text::{mark_blanks, trim_marked, white_space};
use punktfunk_webos::wrapping::words_marked;

fn file(name: &str, text: &str) -> LicenceFile {
    LicenceFile { name: name.to_string(), text: text.to_string() }
}

fn package(name: &str, version: &str, files: Vec<LicenceFile>) -> Package {
    Package {
        name: name.to_string(),
        version: version.to_string(),
        license: Some("MIT".to_string()),
        license_file: None,
        repository: format!("https://example.org/{name}"),
        member: false,
        files,
    }
}

fn keys(words: &[&str]) -> Vec<Vec<char>> {
    words.iter().map(|w| w.chars().collect()).collect()
}

#[test]
fn positions_are_sorted_by_key() {
    assert_eq!(sorted_order(&keys(&["b", "a", "b", "", "ab"])), vec![3, 1, 4, 0, 2]);
    assert_eq!(sorted_pairs(&keys(&["b", "a", "b"]), &keys(&["2", "9", "1"])), vec![1, 2, 0]);
    assert!(sorted_order(&Vec::new()).is_empty());
}

#[test]
fn marked_blanks_are_cut_and_split_at() {
    let blank = vec![true, false, true, false, true, true];
    assert_eq!(trim_marked("xaxbxx", &blank), "axb");
    let chars: Vec<char> = "xaxbxx".chars().collect();
    assert_eq!(words_marked(&chars, &blank), vec!["a", "b"]);
    assert_eq!(mark_blanks(&" a\u{3000}\t".chars().collect()), vec![true, false, true, true]);
    assert_eq!(trim_marked("ab", &vec![true, true]), "");
}

#[test]
fn licences_are_told_by_their_names() {
    for name in ["license", "license.txt", "license-mit", "licence.md", "copying", "notice", "unlicense", "mycopyright.md"] {
        assert!(is_licence_name(name), "{name}");
    }
    for name in ["readme.md", "cargo.toml", "lib.rs", "lic", ""] {
        assert!(!is_licence_name(name), "{name}");
    }
}

#[test]
fn a_packages_licences_come_by_name_and_trimmed() {
    let found = vec![
        file("README.md", "read"),
        file("LICENSE-MIT", "\n mit text \n"),
        file("LICENSE-APACHE", "apache"),
        file("NOTICE", "  \n"),
    ];
    let out = find_license_files(&found);
    let names: Vec<(&str, &str)> = out.iter().map(|f| (f.name.as_str(), f.text.as_str())).collect();
    assert_eq!(names, vec![("LICENSE-APACHE", "apache"), ("LICENSE-MIT", "mit text")]);
}

#[test]
fn packages_are_listed_by_name_and_version() {
    let mut own = package("app", "1.0", Vec::new());
    own.member = true;
    let out = list_packages(vec![
        package("Zebra", "1", Vec::new()),
        own,
        package("alpha", "2", Vec::new()),
        package("Alpha", "1", Vec::new()),
    ]);
    let names: Vec<String> = out.iter().map(|p| format!("{} {}", p.name, p.version)).collect();
    assert_eq!(names, vec!["Alpha 1", "alpha 2", "Zebra 1"]);
}

#[test]
fn packages_follow_their_keys_and_versions() {
    let all = vec![package("x", "2", Vec::new()), package("y", "1", Vec::new()), package("z", "1", Vec::new())];
    let ordered = order_packages(all, &keys(&["b", "b", "a"]));
    let names: Vec<&str> = ordered.iter().map(|p| p.name.as_str()).collect();
    assert_eq!(names, vec!["z", "y", "x"]);
}

#[test]
fn a_shared_text_is_printed_once() {
    let mit = || vec![file("LICENSE", "the mit text")];
    let mut bare = package("bare", "0.1", Vec::new());
    bare.license = None;
    bare.license_file = Some("COPYING.odd".to_string());
    bare.repository = String::new();
    let comps = vec![Component {
        label: "Geist".to_string(),
        blurb: "A typeface.".to_string(),
        url: "https://example.org/geist".to_string(),
        file: Some(file("OFL.txt", " the ofl text ")),
    }];
    let n = third_party_notices(vec![package("zed", "2", mit()), bare, package("abc", "1", mit())], &comps);
    assert_eq!((n.crates, n.texts, n.without_text), (3, 2, 1));
    assert_eq!(n.text.matches("the mit text").count(), 1);
    assert!(n.text.contains("The following license (LICENSE) applies to: abc 1, zed 2\n"));
    assert!(n.text.contains("The following license (OFL.txt) applies to: Geist\n"));
    assert!(n.text.contains("  bare 0.1 — file: COPYING.odd\n"));
    assert!(n.text.contains("  bare 0.1 — UNKNOWN\n"));
    assert!(n.text.contains("  abc 1 — MIT — https://example.org/abc\n"));
    assert!(n.text.contains("  Geist\n      A typeface.\n      https://example.org/geist\n"));
    assert!(n.text.find("applies to: abc").unwrap() < n.text.find("applies to: Geist").unwrap());
    assert!(n.text.starts_with("THIRD-PARTY SOFTWARE NOTICES\n======"));
    assert!(n.text.contains("Total third-party crates: 3\n"));
    assert!(n.text.ends_with("the ofl text\n\n"));
}

#[test]
fn notices_of_nothing_are_short() {
    let n = notices_of(&Vec::new(), &Vec::new());
    assert_eq!((n.crates, n.texts, n.without_text), (0, 0, 0));
    assert!(!n.text.contains("BUNDLED") && !n.text.contains("did not embed"));
    assert!(n.text.contains("MANIFEST (crate version — SPDX license — source)\n"));
    let rule = "=".repeat(76);
    assert!(n.text.ends_with(&format!("{rule}\nFULL LICENSE TEXTS (deduplicated)\n{rule}\n")));
}

const GRAPH: &str = r#"{
  "packages": [
    {"id": "zed 2", "name": "zed", "version": "2", "license": "MIT", "license_file": null,
     "repository": "https://example.org/zed", "manifest_path": "/reg/zed/Cargo.toml"},
    {"name": "nobody", "version": "1", "manifest_path": "/reg/nobody/Cargo.toml"},
    {"id": "app 1", "name": "app", "version": "1", "license": "MIT", "manifest_path": "/src/app/Cargo.toml"},
    {"id": "bare 0", "license": 7, "license_file": "COPYING", "repository": ["x"]},
    {"id": 12, "name": "number"},
    "no object"
  ],
  "workspace_members": [3, "app 1", null]
}"#;

fn graph_files() -> Vec<Vec<LicenceFile>> {
    vec![vec![file("LICENSE", "zed text")], vec![file("LICENSE", "nobody text")]]
}

#[test]
fn a_document_tells_its_packages_in_order() {
    let out = metadata_packages(GRAPH.as_bytes(), graph_files()).unwrap();
    let names: Vec<&str> = out.iter().map(|p| p.name.as_str()).collect();
    assert_eq!(names, vec!["zed", "app", ""]);
    let zed = &out[0];
    assert_eq!((zed.version.as_str(), zed.license.as_deref(), zed.license_file.as_deref()), ("2", Some("MIT"), None));
    assert_eq!(zed.repository, "https://example.org/zed");
    assert!(!zed.member && zed.files.len() == 1 && zed.files[0].text == "zed text");
    assert!(out[1].member && out[1].files.is_empty());
    let bare = &out[2];
    assert_eq!((bare.version.as_str(), bare.license.as_deref(), bare.repository.as_str()), ("", None, ""));
    assert_eq!(bare.license_file.as_deref(), Some("COPYING"));
    assert!(!bare.member && bare.files.is_empty());
}

#[test]
fn a_document_tells_where_its_manifests_stand() {
    let m = read_metadata(GRAPH.as_bytes()).unwrap();
    assert_eq!(
        m.manifest_paths(),
        vec!["/reg/zed/Cargo.toml", "/reg/nobody/Cargo.toml", "/src/app/Cargo.toml", "", "", ""]
    );
    assert_eq!(m.members, vec![None, Some("app 1".to_string()), None]);
}

#[test]
fn what_is_no_document_tells_nothing() {
    for bad in ["", "{", "{} {}", "not json", "{\"packages\": [}"] {
        assert!(metadata_packages(bad.as_bytes(), Vec::new()).is_none(), "{bad}");
        assert!(metadata_notices(bad.as_bytes(), Vec::new(), &Vec::new()).is_none(), "{bad}");
    }
    for empty in ["{}", "[]", "null", "{\"packages\": {\"0\": {\"id\": \"x\"}}}", "{\"packages\": \"x\"}"] {
        assert!(metadata_packages(empty.as_bytes(), Vec::new()).unwrap().is_empty(), "{empty}");
    }
}

#[test]
fn many_packages_keep_their_places() {
    let entries: Vec<String> = (0..123).map(|i| format!("{{\"id\": \"p{i}\", \"name\": \"n{i}\"}}")).collect();
    let document = format!("{{\"packages\": [{}], \"workspace_members\": [\"p10\"]}}", entries.join(", "));
    let out = metadata_packages(document.as_bytes(), Vec::new()).unwrap();
    assert_eq!(out.len(), 123);
    for (i, p) in out.iter().enumerate() {
        assert_eq!(p.name, format!("n{i}"));
        assert_eq!(p.member, i == 10);
    }
}

#[test]
fn read_entries_become_packages() {
    let entry = |id: Option<&str>| Entry {
        id: id.map(str::to_string),
        name: Some("n".to_string()),
        version: None,
        license: None,
        license_file: None,
        repository: None,
        manifest_path: None,
    };
    let m = Metadata { members: vec![Some("own".to_string())], packages: vec![entry(None), entry(Some("own")), entry(Some("x"))] };
    let out = m.all_packages(vec![vec![file("a", "1")], Vec::new(), vec![file("b", "2")]]);
    let seen: Vec<(bool, usize)> = out.iter().map(|p| (p.member, p.files.len())).collect();
    assert_eq!(seen, vec![(true, 0), (false, 1)]);
}

#[test]
fn a_document_becomes_its_notices() {
    let n = metadata_notices(GRAPH.as_bytes(), graph_files(), &Vec::new()).unwrap();
    assert_eq!((n.crates, n.texts, n.without_text), (2, 1, 1));
    assert!(n.text.contains("  zed 2 — MIT — https://example.org/zed\n"));
    assert!(n.text.contains("applies to: zed 2\n") && !n.text.contains("nobody") && !n.text.contains("app 1"));
}

#[test]
fn the_app_names_what_it_bundles() {
    assert_eq!(TARGET, "armv7-unknown-linux-gnueabi");
    let all = bundled_components();
    assert_eq!(all.len(), 10);
    assert_eq!(all[0].label, "SDL2 (webosbrew/SDL-webOS backport)");
    assert_eq!(all[2].url, "https://gcc.gnu.org/onlinedocs/libstdc++/");
    assert_eq!(all[9].label, "NDL DirectMedia");
    assert!(all[9].blurb.contains("NOT redistributed by this package"));
    assert_eq!(all.iter().filter(|b| b.licence.is_some()).count(), 6);
    let geist = all[3].component(Some("the ofl text".to_string()));
    assert_eq!((geist.label.as_str(), geist.url.as_str()), ("Geist (Geist Sans)", "https://github.com/vercel/geist-font"));
    let licence = geist.file.unwrap();
    assert_eq!((licence.name.as_str(), licence.text.as_str()), ("Geist-OFL.txt", "the ofl text"));
    assert!(all[3].component(None).file.is_none());
    assert!(all[0].component(Some("x".to_string())).file.is_none());
}

#[test]
fn white_space_is_unicodes() {
    for code in 0..=0x10ffff_u32 {
        if let Some(c) = char::from_u32(code) {
            assert_eq!(white_space(c), c.is_whitespace(), "{code:x}");
        }
    }
}
