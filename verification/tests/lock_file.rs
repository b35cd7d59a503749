use twoliter::error::Error;
use twoliter::image::LockedImage;
use twoliter::lock::Lock;
use twoliter::version::Version;

fn locked(name: &str, version: &str, vendor: &str, digest: &str) -> LockedImage {
    LockedImage {
        name: name.to_string(),
        version: Version::parse(version).expect("a semantic version"),
        vendor: vendor.to_string(),
        source: format!("reg.example/{}/{}:v{}", vendor, name, version),
        digest: digest.to_string(),
        manifest: b"kept in memory only".to_vec(),
    }
}

fn lock() -> Lock {
    Lock {
        schema_version: 1,
        sdk: locked("sdk", "0.43.0", "bottlerocket", "c2RrIGRpZ2VzdA=="),
        kit: vec![
            locked("core-kit", "2.0.0", "bottlerocket", "Y29yZQ=="),
            locked("extra-kit", "1.1.0-rc.1", "mine", "ZXh0cmE="),
        ],
    }
}

const LOCK_TEXT: &str = r#"schema-version = 1

[sdk]
name = "sdk"
version = "0.43.0"
vendor = "bottlerocket"
source = "reg.example/bottlerocket/sdk:v0.43.0"
digest = "c2RrIGRpZ2VzdA=="

[[kit]]
name = "core-kit"
version = "2.0.0"
vendor = "bottlerocket"
source = "reg.example/bottlerocket/core-kit:v2.0.0"
digest = "Y29yZQ=="

[[kit]]
name = "extra-kit"
version = "1.1.0-rc.1"
vendor = "mine"
source = "reg.example/mine/extra-kit:v1.1.0-rc.1"
digest = "ZXh0cmE="
"#;

#[test]
fn lock_file_holds_marker_sdk_and_kits_without_manifests() {
    assert_eq!(lock().to_toml().expect("serializes"), LOCK_TEXT);
}

#[test]
fn lock_file_without_kits_holds_an_empty_list() {
    let mut only_sdk = lock();
    only_sdk.kit.clear();
    let text = only_sdk.to_toml().expect("serializes");
    let read = Lock::from_toml(&text).expect("reads back");
    assert!(read.kit.is_empty());
    assert_eq!(read.sdk.name, "sdk");
}

#[test]
fn lock_file_reads_back_as_the_lock_that_was_written() {
    let text = lock().to_toml().expect("serializes");
    let read = Lock::from_toml(&text).expect("reads back");
    assert!(read == lock());
    assert_eq!(read.schema_version, 1);
    assert_eq!(read.sdk.name, "sdk");
    assert_eq!(read.sdk.version.as_str(), "0.43.0");
    assert_eq!(read.sdk.vendor, "bottlerocket");
    assert_eq!(read.kit.len(), 2);
    assert_eq!(read.kit[1].name, "extra-kit");
    assert_eq!(read.kit[1].version.as_str(), "1.1.0-rc.1");
    assert_eq!(read.kit[1].source, "reg.example/mine/extra-kit:v1.1.0-rc.1");
    assert_eq!(read.kit[1].digest, "ZXh0cmE=");
    assert!(read.kit[0].manifest.is_empty());
    assert!(read.sdk.manifest.is_empty());
}

#[test]
fn lock_file_that_was_created_loads_against_the_same_resolution() {
    let created = lock();
    let text = created.to_toml().expect("serializes");
    let stored = Lock::from_toml(&text).expect("reads back");
    let loaded = Lock::load(stored, &created).expect("nothing has changed");
    assert!(loaded == created);
}

#[test]
fn lock_file_with_one_character_of_a_digest_changed_does_not_load() {
    let text = lock().to_toml().expect("serializes").replace("Y29yZQ==", "Y29yZy==");
    let stored = Lock::from_toml(&text).expect("still a lock file");
    assert!(matches!(Lock::load(stored, &lock()), Err(Error::LockOutdated)));
}

#[test]
fn lock_file_with_one_character_of_a_version_changed_does_not_load() {
    let text = lock().to_toml().expect("serializes");
    let changed = text.replace("version = \"2.0.0\"", "version = \"2.0.1\"");
    assert!(changed != text);
    let stored = Lock::from_toml(&changed).expect("still a lock file");
    assert_eq!(stored.kit[0].version.as_str(), "2.0.1");
    assert_eq!(stored.kit[0].source, lock().kit[0].source);
    assert_eq!(stored.kit[0].digest, lock().kit[0].digest);
    assert!(matches!(Lock::load(stored, &lock()), Err(Error::LockOutdated)));
    let changed = text.replace("version = \"0.43.0\"", "version = \"0.43.1\"");
    let stored = Lock::from_toml(&changed).expect("still a lock file");
    assert!(matches!(Lock::load(stored, &lock()), Err(Error::LockOutdated)));
}

#[test]
fn lock_file_with_a_version_that_is_no_version_does_not_read() {
    let text = LOCK_TEXT.replace("version = \"2.0.0\"", "version = \"2.0.x\"");
    match Lock::from_toml(&text) {
        Err(error) => {
            assert!(matches!(error, Error::LockFormat));
            assert_eq!(error.message(), "failed to deserialize lockfile");
        }
        Ok(_) => panic!("a lock file with a broken version must not read"),
    }
}

#[test]
fn lock_file_in_any_key_order_and_with_other_keys_reads() {
    let text = r#"
        [[kit]]
        digest = "d1"
        source = "reg/k:v1.0.0"
        vendor = "v"
        version = "1.0.0"
        name = "k"
        comment = "not looked at"

        [sdk]
        digest = "d2"
        source = "reg/s:v2.0.0"
        vendor = "v"
        version = "2.0.0"
        name = "s"
    "#;
    let text = format!("schema-version = 1\nnote = true\n{}", text);
    let read = Lock::from_toml(&text).expect("reads");
    assert_eq!(read.sdk.to_string(), "s-2.0.0@v (reg/s:v2.0.0)");
    assert_eq!(read.kit[0].to_string(), "k-1.0.0@v (reg/k:v1.0.0)");
}

#[test]
fn lock_file_of_another_schema_version_does_not_read() {
    let text = LOCK_TEXT.replace("schema-version = 1", "schema-version = 2");
    assert!(matches!(Lock::from_toml(&text), Err(Error::LockFormat)));
    let text = LOCK_TEXT.replace("schema-version = 1", "schema-version = \"1\"");
    assert!(matches!(Lock::from_toml(&text), Err(Error::LockFormat)));
    let text = LOCK_TEXT.replace("schema-version = 1", "schema-version = -1");
    assert!(matches!(Lock::from_toml(&text), Err(Error::LockFormat)));
    let text = LOCK_TEXT.replace("schema-version = 1\n", "");
    assert!(matches!(Lock::from_toml(&text), Err(Error::LockFormat)));
}

#[test]
fn lock_file_that_lacks_a_part_does_not_read() {
    assert!(matches!(Lock::from_toml(""), Err(Error::LockFormat)));
    assert!(matches!(Lock::from_toml("not toml ["), Err(Error::LockFormat)));
    let without_digest = LOCK_TEXT.replace("digest = \"Y29yZQ==\"\n", "");
    assert!(matches!(Lock::from_toml(&without_digest), Err(Error::LockFormat)));
    let without_sdk_name = LOCK_TEXT.replace("name = \"sdk\"\n", "");
    assert!(matches!(Lock::from_toml(&without_sdk_name), Err(Error::LockFormat)));
    let number_for_name = LOCK_TEXT.replace("name = \"core-kit\"", "name = 7");
    assert!(matches!(Lock::from_toml(&number_for_name), Err(Error::LockFormat)));
    let without_kits = "schema-version = 1\n[sdk]\nname = \"s\"\nversion = \"1.0.0\"\nvendor = \"v\"\nsource = \"x\"\ndigest = \"d\"\n";
    assert!(matches!(Lock::from_toml(without_kits), Err(Error::LockFormat)));
}
