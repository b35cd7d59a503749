use base64::Engine;
use std::collections::HashMap;
use twoliter::error::Error;
use twoliter::image::{Image, Vendor};
use twoliter::lock::Lock;
use twoliter::resolve::{Project, Reply, Resolution, Step};
use twoliter::version::Version;

struct Registry {
    manifests: HashMap<String, Vec<u8>>,
    configs: HashMap<String, Vec<(String, String)>>,
    manifest_requests: Vec<String>,
    config_requests: Vec<String>,
}

fn image(name: &str, version: &str, vendor: &str) -> Image {
    Image {
        name: name.to_string(),
        version: Version::parse(version).expect("a semantic version"),
        vendor: vendor.to_string(),
    }
}

fn project(sdk: Option<Image>, kits: Vec<Image>) -> Project {
    Project {
        vendors: vec![
            ("v1".to_string(), Vendor { registry: "reg.example/one".to_string() }),
            ("v2".to_string(), Vendor { registry: "reg.example/two".to_string() }),
        ],
        sdk,
        kits,
    }
}

fn metadata_label(name: &str, version: &str, sdk: &Image, kits: &[Image]) -> String {
    let kits: Vec<String> = kits
        .iter()
        .map(|kit| {
            format!(
                r#"{{"name":"{}","version":"{}","vendor":"{}"}}"#,
                kit.name,
                kit.version.as_str(),
                kit.vendor
            )
        })
        .collect();
    let json = format!(
        r#"{{"kit":[{}],"name":"{}","sdk":{{"name":"{}","version":"{}","vendor":"{}"}},"version":"{}"}}"#,
        kits.join(","),
        name,
        sdk.name,
        sdk.version.as_str(),
        sdk.vendor,
        version
    );
    base64::engine::general_purpose::STANDARD.encode(json.as_bytes())
}

fn manifest_list(digests: &[&str]) -> Vec<u8> {
    let arches = ["amd64", "arm64"];
    let entries: Vec<String> = digests
        .iter()
        .enumerate()
        .map(|(i, digest)| {
            format!(
                r#"{{"digest":"{}","platform":{{"architecture":"{}","os":"linux"}}}}"#,
                digest,
                arches[i % 2]
            )
        })
        .collect();
    format!(r#"{{"schemaVersion":2,"manifests":[{}]}}"#, entries.join(",")).into_bytes()
}

impl Registry {
    fn new() -> Registry {
        Registry {
            manifests: HashMap::new(),
            configs: HashMap::new(),
            manifest_requests: Vec::new(),
            config_requests: Vec::new(),
        }
    }

    fn kit_with_labels(&mut self, registry: &str, name: &str, version: &str, labels: &[Option<String>]) {
        let digests: Vec<String> =
            (0..labels.len()).map(|i| format!("sha256:{}{}{}", name, version, i)).collect();
        let refs: Vec<&str> = digests.iter().map(|digest| digest.as_str()).collect();
        self.manifests.insert(format!("{}/{}:v{}", registry, name, version), manifest_list(&refs));
        for (digest, label) in digests.iter().zip(labels.iter()) {
            let mut config = vec![("maintainer".to_string(), "nobody".to_string())];
            if let Some(label) = label {
                config.push(("dev.bottlerocket.kit.v1".to_string(), label.clone()));
            }
            self.configs.insert(format!("{}/{}@{}", registry, name, digest), config);
        }
    }

    fn kit(&mut self, registry: &str, name: &str, version: &str, sdk: &Image, kits: &[Image]) {
        let label = metadata_label(name, version, sdk, kits);
        self.kit_with_labels(registry, name, version, &[Some(label.clone()), Some(label)]);
    }

    fn sdk(&mut self, registry: &str, name: &str, version: &str) {
        self.manifests.insert(
            format!("{}/{}:v{}", registry, name, version),
            format!("sdk manifest of {} {}", name, version).into_bytes(),
        );
    }

    fn resolve(&mut self, project: &Project) -> Result<Lock, Error> {
        let (mut state, mut step): (Resolution, Step) = Lock::resolve(project);
        for _ in 0..1000 {
            let reply = match step {
                Step::Resolved(lock) => return Ok(lock),
                Step::Failed(error) => return Err(error),
                Step::GetManifest { uri } => {
                    self.manifest_requests.push(uri.clone());
                    Reply::Manifest(self.manifests.get(&uri).expect("a known manifest").clone())
                }
                Step::GetConfig { uri } => {
                    self.config_requests.push(uri.clone());
                    Reply::Config(self.configs.get(&uri).expect("a known configuration").clone())
                }
            };
            let next = state.answer(reply);
            state = next.0;
            step = next.1;
        }
        panic!("the resolution did not end");
    }
}

fn names(lock: &Lock) -> Vec<String> {
    lock.kit.iter().map(|kit| format!("{}@{}", kit.name, kit.version.as_str())).collect()
}

#[test]
fn kit_with_sdk_and_dependency_resolves_to_both_kits_and_the_sdk() {
    let sdk = image("S", "2.0.0", "v1");
    let mut registry = Registry::new();
    registry.kit("reg.example/one", "A", "1.0.0", &sdk, &[image("B", "1.0.0", "v1")]);
    registry.kit("reg.example/one", "B", "1.0.0", &sdk, &[]);
    registry.sdk("reg.example/one", "S", "2.0.0");

    let lock = registry.resolve(&project(None, vec![image("A", "1.0.0", "v1")])).expect("resolves");
    assert_eq!(lock.schema_version, 1);
    assert_eq!(lock.sdk.name, "S");
    assert_eq!(lock.sdk.version.as_str(), "2.0.0");
    assert_eq!(lock.sdk.vendor, "v1");
    assert_eq!(lock.sdk.source, "reg.example/one/S:v2.0.0");
    assert_eq!(names(&lock), vec!["A@1.0.0", "B@1.0.0"]);
    assert_eq!(lock.kit[0].source, "reg.example/one/A:v1.0.0");
    assert_eq!(lock.kit[1].source, "reg.example/one/B:v1.0.0");
    assert_eq!(lock.kit[0].manifest, registry.manifests["reg.example/one/A:v1.0.0"]);
}

#[test]
fn cycle_of_two_kits_ends_and_resolves_each_once() {
    let sdk = image("S", "2.0.0", "v1");
    let mut registry = Registry::new();
    registry.kit("reg.example/one", "A", "1.0.0", &sdk, &[image("B", "1.0.0", "v1")]);
    registry.kit("reg.example/one", "B", "1.0.0", &sdk, &[image("A", "1.0.0", "v1")]);
    registry.sdk("reg.example/one", "S", "2.0.0");

    let lock = registry.resolve(&project(None, vec![image("A", "1.0.0", "v1")])).expect("resolves");
    assert_eq!(names(&lock), vec!["A@1.0.0", "B@1.0.0"]);
    assert_eq!(
        registry.manifest_requests,
        vec![
            "reg.example/one/A:v1.0.0",
            "reg.example/one/B:v1.0.0",
            "reg.example/one/S:v2.0.0"
        ]
    );
    assert_eq!(registry.config_requests.len(), 4);
}

#[test]
fn kits_that_ask_for_different_sdks_fail_with_both_named() {
    let mut registry = Registry::new();
    registry.kit("reg.example/one", "A", "1.0.0", &image("S", "2.0.0", "v1"), &[]);
    registry.kit("reg.example/one", "B", "1.0.0", &image("T", "3.0.0", "v2"), &[]);

    let outcome =
        registry.resolve(&project(None, vec![image("A", "1.0.0", "v1"), image("B", "1.0.0", "v1")]));
    match outcome {
        Err(Error::MultipleSdks { found }) => {
            assert_eq!(found.len(), 2);
            assert_eq!(found[0].to_string(), "S-2.0.0@v1");
            assert_eq!(found[1].to_string(), "T-3.0.0@v2");
            let message = Error::MultipleSdks { found }.message();
            assert_eq!(message, "cannot use multiple sdks (found sdk: S-2.0.0@v1, T-3.0.0@v2)");
        }
        other => panic!("expected two SDKs to be reported, got {:?}", other.map(|lock| names(&lock))),
    }
}

#[test]
fn sdk_of_the_project_counts_against_the_sdk_of_a_kit() {
    let mut registry = Registry::new();
    registry.kit("reg.example/one", "A", "1.0.0", &image("S", "2.0.0", "v1"), &[]);
    let outcome = registry
        .resolve(&project(Some(image("S", "2.0.1", "v1")), vec![image("A", "1.0.0", "v1")]));
    match outcome {
        Err(Error::MultipleSdks { found }) => {
            assert_eq!(found[0].to_string(), "S-2.0.1@v1");
            assert_eq!(found[1].to_string(), "S-2.0.0@v1");
        }
        _ => panic!("expected two SDKs to be reported"),
    }
}

#[test]
fn same_sdk_from_project_and_kits_is_one_sdk() {
    let sdk = image("S", "2.0.0", "v1");
    let mut registry = Registry::new();
    registry.kit("reg.example/one", "A", "1.0.0", &sdk, &[]);
    registry.kit("reg.example/two", "B", "4.5.6", &sdk, &[]);
    registry.sdk("reg.example/one", "S", "2.0.0");
    let lock = registry
        .resolve(&project(Some(sdk), vec![image("A", "1.0.0", "v1"), image("B", "4.5.6", "v2")]))
        .expect("resolves");
    assert_eq!(names(&lock), vec!["A@1.0.0", "B@4.5.6"]);
    assert_eq!(lock.kit[1].source, "reg.example/two/B:v4.5.6");
    assert_eq!(lock.sdk.source, "reg.example/one/S:v2.0.0");
}

#[test]
fn kit_reached_in_two_versions_fails_with_both_versions_named() {
    let sdk = image("S", "2.0.0", "v1");
    let mut registry = Registry::new();
    registry.kit("reg.example/one", "A", "1.0.0", &sdk, &[image("C", "1.0.0", "v1")]);
    registry.kit("reg.example/one", "B", "1.0.0", &sdk, &[image("C", "1.1.0", "v1")]);
    registry.kit("reg.example/one", "C", "1.0.0", &sdk, &[]);
    registry.kit("reg.example/one", "C", "1.1.0", &sdk, &[]);
    registry.sdk("reg.example/one", "S", "2.0.0");

    let outcome =
        registry.resolve(&project(None, vec![image("A", "1.0.0", "v1"), image("B", "1.0.0", "v1")]));
    match outcome {
        Err(error) => {
            match &error {
                Error::VersionConflict { name, vendor, declared, known } => {
                    assert_eq!(name, "C");
                    assert_eq!(vendor, "v1");
                    assert_eq!(declared.as_str(), "1.1.0");
                    assert_eq!(known.as_str(), "1.0.0");
                }
                other => panic!("expected a version conflict, got {:?}", other),
            }
            assert_eq!(
                error.message(),
                "cannot have multiple versions of the same kit (C-1.1.0@v1 != C-1.0.0@v1"
            );
        }
        Ok(_) => panic!("two versions of one kit must not resolve"),
    }
    assert!(!registry.manifest_requests.contains(&"reg.example/one/C:v1.1.0".to_string()));
}

#[test]
fn same_kit_from_two_vendors_is_two_kits() {
    let sdk = image("S", "2.0.0", "v1");
    let mut registry = Registry::new();
    registry.kit("reg.example/one", "A", "1.0.0", &sdk, &[]);
    registry.kit("reg.example/two", "A", "2.0.0", &sdk, &[]);
    registry.sdk("reg.example/one", "S", "2.0.0");
    let lock = registry
        .resolve(&project(None, vec![image("A", "1.0.0", "v1"), image("A", "2.0.0", "v2")]))
        .expect("resolves");
    assert_eq!(names(&lock), vec!["A@1.0.0", "A@2.0.0"]);
}

#[test]
fn kit_declared_twice_in_one_version_is_resolved_once() {
    let sdk = image("S", "2.0.0", "v1");
    let mut registry = Registry::new();
    registry.kit("reg.example/one", "A", "1.0.0", &sdk, &[]);
    registry.sdk("reg.example/one", "S", "2.0.0");
    let lock = registry
        .resolve(&project(None, vec![image("A", "1.0.0", "v1"), image("A", "1.0.0", "v1")]))
        .expect("resolves");
    assert_eq!(names(&lock), vec!["A@1.0.0"]);
    assert_eq!(registry.manifest_requests.len(), 2);
}

#[test]
fn walk_is_breadth_first() {
    let sdk = image("S", "2.0.0", "v1");
    let mut registry = Registry::new();
    registry.kit("reg.example/one", "A", "1.0.0", &sdk, &[image("C", "1.0.0", "v1")]);
    registry.kit("reg.example/one", "B", "1.0.0", &sdk, &[image("D", "1.0.0", "v1")]);
    registry.kit("reg.example/one", "C", "1.0.0", &sdk, &[]);
    registry.kit("reg.example/one", "D", "1.0.0", &sdk, &[]);
    registry.sdk("reg.example/one", "S", "2.0.0");
    let lock = registry
        .resolve(&project(None, vec![image("A", "1.0.0", "v1"), image("B", "1.0.0", "v1")]))
        .expect("resolves");
    assert_eq!(names(&lock), vec!["A@1.0.0", "B@1.0.0", "C@1.0.0", "D@1.0.0"]);
}

#[test]
fn kit_of_an_undeclared_vendor_fails_with_the_vendor_named() {
    let mut registry = Registry::new();
    let outcome = registry.resolve(&project(None, vec![image("A", "1.0.0", "nobody")]));
    match outcome {
        Err(error) => {
            assert!(matches!(&error, Error::UnknownVendor { vendor } if vendor == "nobody"));
            assert_eq!(error.message(), "vendor 'nobody' is not specified in Twoliter.toml");
        }
        Ok(_) => panic!("an undeclared vendor must not resolve"),
    }
    assert!(registry.manifest_requests.is_empty());
}

#[test]
fn sdk_of_an_undeclared_vendor_fails_with_the_vendor_named() {
    let mut registry = Registry::new();
    let outcome = registry.resolve(&project(Some(image("S", "2.0.0", "elsewhere")), vec![]));
    assert!(matches!(outcome, Err(Error::UnknownVendor { vendor }) if vendor == "elsewhere"));
}

#[test]
fn project_without_any_sdk_fails() {
    let mut registry = Registry::new();
    let outcome = registry.resolve(&project(None, vec![]));
    match outcome {
        Err(error) => {
            assert!(matches!(error, Error::NoSdk));
            assert_eq!(
                error.message(),
                "no sdk was found for use, please specify a sdk in Twoliter.toml"
            );
        }
        Ok(_) => panic!("a project without an SDK must not resolve"),
    }
}

#[test]
fn project_with_only_an_sdk_resolves_to_it() {
    let mut registry = Registry::new();
    registry.sdk("reg.example/two", "S", "2.0.0");
    let lock = registry.resolve(&project(Some(image("S", "2.0.0", "v2")), vec![])).expect("resolves");
    assert!(lock.kit.is_empty());
    assert_eq!(lock.sdk.source, "reg.example/two/S:v2.0.0");
    assert_eq!(registry.config_requests.len(), 0);
}

#[test]
fn platforms_with_different_metadata_fail_with_a_mismatch() {
    let sdk = image("S", "2.0.0", "v1");
    let first = metadata_label("A", "1.0.0", &sdk, &[]);
    let second = metadata_label("A", "1.0.0", &sdk, &[image("B", "1.0.0", "v1")]);
    let mut registry = Registry::new();
    registry.kit_with_labels(
        "reg.example/one",
        "A",
        "1.0.0",
        &[Some(first.clone()), Some(second.clone()), Some(first.clone())],
    );
    let outcome = registry.resolve(&project(None, vec![image("A", "1.0.0", "v1")]));
    match outcome {
        Err(error) => {
            match &error {
                Error::MetadataMismatch { canonical, divergent } => {
                    assert_eq!(canonical, &first);
                    assert_eq!(divergent, &second);
                }
                other => panic!("expected a mismatch, got {:?}", other),
            }
            assert_eq!(
                error.message(),
                "Metadata does not match between images in manifest list: \
                 <ImageMetadata(decoded) [ImageMetadata { name: A, version: 1.0.0, sdk: S-2.0.0@v1, kit: [] }]> != \
                 <ImageMetadata(decoded) [ImageMetadata { name: A, version: 1.0.0, sdk: S-2.0.0@v1, kit: [B-1.0.0@v1] }]>"
            );
        }
        Ok(_) => panic!("platforms that disagree must not resolve"),
    }
    assert_eq!(registry.config_requests.len(), 2);
}

#[test]
fn platforms_with_identical_metadata_use_what_the_first_says() {
    let sdk = image("S", "2.0.0", "v1");
    let label = metadata_label("A", "1.0.0", &sdk, &[image("B", "1.0.0", "v2")]);
    let mut registry = Registry::new();
    registry.kit_with_labels(
        "reg.example/one",
        "A",
        "1.0.0",
        &[Some(label.clone()), Some(label.clone()), Some(label)],
    );
    registry.kit("reg.example/two", "B", "1.0.0", &sdk, &[]);
    registry.sdk("reg.example/one", "S", "2.0.0");
    let lock = registry.resolve(&project(None, vec![image("A", "1.0.0", "v1")])).expect("resolves");
    assert_eq!(names(&lock), vec!["A@1.0.0", "B@1.0.0"]);
    assert_eq!(
        &registry.config_requests[..3],
        &[
            "reg.example/one/A@sha256:A1.0.00",
            "reg.example/one/A@sha256:A1.0.01",
            "reg.example/one/A@sha256:A1.0.02"
        ]
    );
}

#[test]
fn platforms_whose_labels_differ_as_text_but_say_the_same_agree() {
    let sdk = image("S", "2.0.0", "v1");
    let compact = metadata_label("A", "1.0.0", &sdk, &[image("B", "1.0.0", "v2")]);
    let spaced = base64::engine::general_purpose::STANDARD.encode(
        r#"{
            "version": "1.0.0",
            "name": "A",
            "kit": [ { "vendor": "v2", "name": "B", "version": "1.0.0" } ],
            "sdk": { "name": "S", "vendor": "v1", "version": "2.0.0", "digest": "not looked at" }
        }
        "#,
    );
    assert!(compact != spaced);
    let mut registry = Registry::new();
    registry.kit_with_labels(
        "reg.example/one",
        "A",
        "1.0.0",
        &[Some(compact), Some(spaced.clone()), Some(spaced)],
    );
    registry.kit("reg.example/two", "B", "1.0.0", &sdk, &[]);
    registry.sdk("reg.example/one", "S", "2.0.0");
    let lock = registry.resolve(&project(None, vec![image("A", "1.0.0", "v1")])).expect("resolves");
    assert_eq!(names(&lock), vec!["A@1.0.0", "B@1.0.0"]);
    assert_eq!(lock.sdk.name, "S");
}

#[test]
fn later_platform_whose_label_does_not_decode_fails_with_the_decode_error() {
    let sdk = image("S", "2.0.0", "v1");
    let label = metadata_label("A", "1.0.0", &sdk, &[]);
    let not_metadata = base64::engine::general_purpose::STANDARD.encode(r#"{"name":"A"}"#);
    let mut registry = Registry::new();
    registry.kit_with_labels(
        "reg.example/one",
        "A",
        "1.0.0",
        &[Some(label.clone()), Some(not_metadata), Some(label.clone())],
    );
    let outcome = registry.resolve(&project(None, vec![image("A", "1.0.0", "v1")]));
    assert!(matches!(outcome, Err(Error::MetadataJson)));
    assert_eq!(registry.config_requests.len(), 2);

    let mut registry = Registry::new();
    registry.kit_with_labels(
        "reg.example/one",
        "A",
        "1.0.0",
        &[Some(label), Some("%%%".to_string())],
    );
    let outcome = registry.resolve(&project(None, vec![image("A", "1.0.0", "v1")]));
    assert!(matches!(outcome, Err(Error::MetadataBase64)));
}

#[test]
fn first_platform_whose_label_does_not_decode_fails_at_once() {
    let sdk = image("S", "2.0.0", "v1");
    let label = metadata_label("A", "1.0.0", &sdk, &[]);
    let mut registry = Registry::new();
    registry.kit_with_labels(
        "reg.example/one",
        "A",
        "1.0.0",
        &[Some("%%%".to_string()), Some(label)],
    );
    let outcome = registry.resolve(&project(None, vec![image("A", "1.0.0", "v1")]));
    assert!(matches!(outcome, Err(Error::MetadataBase64)));
    assert_eq!(registry.config_requests.len(), 1);
}

#[test]
fn platform_without_kit_label_is_no_kit() {
    let sdk = image("S", "2.0.0", "v1");
    let label = metadata_label("A", "1.0.0", &sdk, &[]);
    let mut registry = Registry::new();
    registry.kit_with_labels("reg.example/one", "A", "1.0.0", &[Some(label), None]);
    let outcome = registry.resolve(&project(None, vec![image("A", "1.0.0", "v1")]));
    assert!(matches!(outcome, Err(Error::NotAKit)));
}

#[test]
fn kit_with_an_empty_manifest_list_has_no_metadata() {
    let mut registry = Registry::new();
    registry.kit_with_labels("reg.example/one", "A", "1.0.0", &[]);
    let outcome = registry.resolve(&project(None, vec![image("A", "1.0.0", "v1")]));
    match outcome {
        Err(error) => {
            assert!(matches!(&error, Error::NoMetadata { .. }));
            assert_eq!(
                error.message(),
                "could not find metadata for kit A-1.0.0@v1 (reg.example/one/A:v1.0.0)"
            );
        }
        Ok(_) => panic!("a kit without platforms must not resolve"),
    }
}

#[test]
fn kit_whose_manifest_is_no_manifest_list_fails() {
    let mut registry = Registry::new();
    registry.manifests.insert("reg.example/one/A:v1.0.0".to_string(), b"not json at all".to_vec());
    let outcome = registry.resolve(&project(None, vec![image("A", "1.0.0", "v1")]));
    match outcome {
        Err(error) => {
            assert!(matches!(error, Error::ManifestList));
            assert_eq!(error.message(), "failed to deserialize manifest list");
        }
        Ok(_) => panic!("a manifest that is no list must not resolve"),
    }
}

#[test]
fn kit_whose_label_does_not_decode_fails() {
    let mut registry = Registry::new();
    registry.kit_with_labels("reg.example/one", "A", "1.0.0", &[Some("%%%".to_string())]);
    let outcome = registry.resolve(&project(None, vec![image("A", "1.0.0", "v1")]));
    match outcome {
        Err(error) => {
            assert!(matches!(error, Error::MetadataBase64));
            assert_eq!(
                error.message(),
                "Failed to decode and parse kit metadata: failed to decode kit metadata as base64"
            );
        }
        Ok(_) => panic!("a label that is no base64 must not resolve"),
    }
}

#[test]
fn answer_of_the_wrong_kind_ends_the_resolution() {
    let (state, step) = Lock::resolve(&project(None, vec![image("A", "1.0.0", "v1")]));
    assert!(matches!(step, Step::GetManifest { ref uri } if uri == "reg.example/one/A:v1.0.0"));
    let (state, step) = state.answer(Reply::Config(Vec::new()));
    assert!(matches!(step, Step::Failed(Error::OutOfTurn)));
    let (_, step) = state.answer(Reply::Manifest(Vec::new()));
    assert!(matches!(step, Step::Failed(Error::OutOfTurn)));
}

#[test]
fn resolved_lock_never_names_a_kit_twice() {
    let sdk = image("S", "2.0.0", "v1");
    let mut registry = Registry::new();
    registry.kit("reg.example/one", "A", "1.0.0", &sdk, &[image("B", "1.0.0", "v1"), image("C", "1.0.0", "v2")]);
    registry.kit("reg.example/one", "B", "1.0.0", &sdk, &[image("C", "1.0.0", "v2"), image("A", "1.0.0", "v1")]);
    registry.kit("reg.example/two", "C", "1.0.0", &sdk, &[image("B", "1.0.0", "v1")]);
    registry.sdk("reg.example/one", "S", "2.0.0");
    let lock = registry
        .resolve(&project(None, vec![image("A", "1.0.0", "v1"), image("B", "1.0.0", "v1")]))
        .expect("resolves");
    for (i, a) in lock.kit.iter().enumerate() {
        for b in lock.kit.iter().skip(i + 1) {
            assert!(a.name != b.name || a.vendor != b.vendor);
        }
    }
    assert_eq!(names(&lock), vec!["A@1.0.0", "B@1.0.0", "C@1.0.0"]);
}
