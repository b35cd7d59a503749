//! The lock: one resolved SDK and every resolved kit.
use vstd::prelude::*;
use vstd::std_specs::cmp::PartialEqSpec;
use vstd::string::StringExecFns;
use crate::error::{Error, ErrorView};
use crate::image::{locked_views, LockedImage, LockedImageView};
use crate::json::{
    canonical_json, json_views, lemma_array_view, lemma_object_view, member_views, number_as_u64,
    number_from_u64, number_of, number_u64, parse_toml, toml_parse, toml_text,
    write_canonical_json, write_toml, Json, JsonView,
};
use crate::version::{semver_text, Version};
use crate::error::DockerArchitecture;
use crate::manifest::{manifest_for, ManifestEntry};
use crate::metadata::yields;

verus! {

/// The marker that every lock carries for its format.
pub const SCHEMA_VERSION: u32 = 1;

/// The resolved dependencies of a project.
#[derive(Debug)]
pub struct Lock {
    /// The format marker.
    pub schema_version: u32,
    /// The one SDK that the project and all its kits build with.
    pub sdk: LockedImage,
    /// Every kit the project depends on, directly or through another kit.
    pub kit: Vec<LockedImage>,
}

/// What a `Lock` says.
pub struct LockView {
    pub schema_version: u32,
    pub sdk: LockedImageView,
    pub kit: Seq<LockedImageView>,
}

/// No two of `kit` are for the same name and vendor.
pub open spec fn one_entry_per_kit(kit: Seq<LockedImageView>) -> bool {
    forall|i: int, j: int|
        0 <= i < kit.len() && 0 <= j < kit.len() && i != j ==> (#[trigger] kit[i]).key() != (
        #[trigger] kit[j]).key()
}

impl LockView {
    /// Both locks carry the same marker and pin the same images in the same
    /// order, each by reference and fingerprint.
    pub open spec fn same_pins(self, other: LockView) -> bool {
        &&& self.schema_version == other.schema_version
        &&& self.sdk.same_pin(other.sdk)
        &&& self.kit.len() == other.kit.len()
        &&& forall|i: int| 0 <= i < self.kit.len() ==> (#[trigger] self.kit[i]).same_pin(other.kit[i])
    }
}

impl LockView {
    /// Both locks carry the same marker and hold the same records in the
    /// same order: for the SDK and for each kit, name, version, vendor,
    /// reference and fingerprint agree.
    pub open spec fn same_records(self, other: LockView) -> bool {
        &&& self.schema_version == other.schema_version
        &&& self.sdk.same_record(other.sdk)
        &&& self.kit.len() == other.kit.len()
        &&& forall|i: int|
            0 <= i < self.kit.len() ==> (#[trigger] self.kit[i]).same_record(other.kit[i])
    }
}

impl View for Lock {
    type V = LockView;

    open spec fn view(&self) -> LockView {
        LockView { schema_version: self.schema_version, sdk: self.sdk@, kit: locked_views(self.kit@) }
    }
}

impl Clone for Lock {
    fn clone(&self) -> (copy: Self)
        ensures
            copy@ == self@,
    {
        let mut kit: Vec<LockedImage> = Vec::new();
        let mut i: usize = 0;
        while i < self.kit.len()
            invariant
                i <= self.kit.len(),
                kit@.len() == i,
                forall|j: int| 0 <= j < i ==> #[trigger] kit@[j]@ == self.kit@[j]@,
            decreases self.kit.len() - i,
        {
            kit.push(self.kit[i].clone());
            i += 1;
        }
        proof {
            assert(locked_views(kit@) =~= locked_views(self.kit@));
        }
        Lock { schema_version: self.schema_version, sdk: self.sdk.clone(), kit }
    }
}

impl PartialEq for Lock {
    fn eq(&self, other: &Self) -> (same: bool) {
        if self.schema_version != other.schema_version || self.sdk != other.sdk || self.kit.len()
            != other.kit.len() {
            return false;
        }
        let mut i: usize = 0;
        while i < self.kit.len()
            invariant
                i <= self.kit.len(),
                self.kit.len() == other.kit.len(),
                forall|j: int| 0 <= j < i ==> (#[trigger] self.kit@[j]@).same_pin(other.kit@[j]@),
            decreases self.kit.len() - i,
        {
            if self.kit[i] != other.kit[i] {
                proof {
                    assert(!(locked_views(self.kit@)[i as int]).same_pin(locked_views(other.kit@)[i as int]));
                }
                return false;
            }
            i += 1;
        }
        proof {
            assert forall|j: int| 0 <= j < self@.kit.len() implies (#[trigger] self@.kit[j]).same_pin(
                other@.kit[j],
            ) by {
                assert((self.kit@[j]@).same_pin(other.kit@[j]@));
            }
        }
        true
    }
}

impl Eq for Lock {

}

impl vstd::std_specs::cmp::PartialEqSpecImpl for Lock {
    open spec fn obeys_eq_spec() -> bool {
        true
    }

    open spec fn eq_spec(&self, other: &Self) -> bool {
        self@.same_pins(other@)
    }
}


/// A lock that names no kit twice holds no kit in two versions.
pub proof fn one_version_per_kit(kit: Seq<LockedImageView>)
    requires
        one_entry_per_kit(kit),
    ensures
        forall|i: int, j: int|
            0 <= i < kit.len() && 0 <= j < kit.len() && (#[trigger] kit[i]).key() == (
            #[trigger] kit[j]).key() ==> kit[i].version == kit[j].version,
{
    assert forall|i: int, j: int|
        0 <= i < kit.len() && 0 <= j < kit.len() && (#[trigger] kit[i]).key() == (
        #[trigger] kit[j]).key() implies kit[i].version == kit[j].version by {
        if i != j {
            assert(kit[i].key() != kit[j].key());
        }
    }
}

/// A lock is consistent with itself: what was just created loads.
pub proof fn lock_matches_itself(lock: LockView)
    ensures
        lock.same_records(lock),
{
}

/// A stored lock whose SDK differs from that of the fresh resolution in
/// any stored field is not consistent with it.
pub proof fn changed_sdk_is_noticed(stored: LockView, fresh: LockView)
    requires
        !stored.sdk.same_record(fresh.sdk),
    ensures
        !stored.same_records(fresh),
{
}

/// A stored lock one of whose kits differs in any stored field from the
/// kit in its place in the fresh resolution is not consistent with it.
pub proof fn changed_kit_is_noticed(stored: LockView, fresh: LockView, at: int)
    requires
        0 <= at < stored.kit.len(),
        at < fresh.kit.len(),
        !stored.kit[at].same_record(fresh.kit[at]),
    ensures
        !stored.same_records(fresh),
{
    if stored.same_records(fresh) {
        assert(stored.kit[at].same_record(fresh.kit[at]));
    }
}

/// A stored lock in which one version was changed, and nothing else, is
/// not consistent with the resolution it was written from.
pub proof fn changed_version_is_noticed(stored: LockView, fresh: LockView, at: int)
    requires
        0 <= at < stored.kit.len(),
        at < fresh.kit.len(),
        stored.sdk.version != fresh.sdk.version || stored.kit[at].version != fresh.kit[at].version,
    ensures
        !stored.same_records(fresh),
{
    if stored.same_records(fresh) {
        assert(stored.kit[at].same_record(fresh.kit[at]));
    }
}

/// The object that stands for a pinned image in the lock file and in the
/// summary of a lock: everything but the manifest.
pub open spec fn image_json(image: LockedImageView) -> JsonView {
    JsonView::Object(
        seq![
            ("name"@, JsonView::Text(image.name)),
            ("version"@, JsonView::Text(image.version)),
            ("vendor"@, JsonView::Text(image.vendor)),
            ("source"@, JsonView::Text(image.source)),
            ("digest"@, JsonView::Text(image.digest)),
        ],
    )
}

/// The objects that stand for a list of pinned images.
pub open spec fn images_json(images: Seq<LockedImageView>) -> Seq<JsonView> {
    images.map_values(|image: LockedImageView| image_json(image))
}

/// The document that the lock file holds for a lock: the marker under
/// `schema-version`, the SDK under `sdk`, the kits under `kit`.
pub open spec fn lock_document(lock: LockView) -> JsonView {
    JsonView::Object(
        seq![
            ("schema-version"@, JsonView::Number(number_of(lock.schema_version as u64))),
            ("sdk"@, image_json(lock.sdk)),
            ("kit"@, JsonView::Array(images_json(lock.kit))),
        ],
    )
}

/// The pinned image that an object declares by its string members `name`,
/// `version`, `vendor`, `source` and `digest`. It has no manifest.
pub open spec fn locked_image_of(doc: JsonView) -> Option<LockedImageView> {
    match (
        doc.text_member("name"@),
        doc.text_member("version"@),
        doc.text_member("vendor"@),
        doc.text_member("source"@),
        doc.text_member("digest"@),
    ) {
        (Some(name), Some(version), Some(vendor), Some(source), Some(digest)) => match semver_text(
            version,
        ) {
            Some(printed) => Some(
                LockedImageView {
                    name,
                    version: printed,
                    vendor,
                    source,
                    digest,
                    manifest: Seq::empty(),
                },
            ),
            None => None,
        },
        _ => None,
    }
}

/// The pinned images that the items of an array declare, if every item
/// declares one.
pub open spec fn locked_images_of(items: Seq<JsonView>) -> Option<Seq<LockedImageView>> {
    if forall|i: int| 0 <= i < items.len() ==> (#[trigger] locked_image_of(items[i])).is_some() {
        Some(Seq::new(items.len(), |i: int| locked_image_of(items[i]).unwrap()))
    } else {
        None
    }
}

/// The lock that a document declares: the marker of this format under
/// `schema-version`, a pinned image under `sdk`, and an array of pinned
/// images under `kit`.
pub open spec fn lock_of(doc: JsonView) -> Option<LockView> {
    match (doc.member("schema-version"@), doc.member("sdk"@), doc.items_member("kit"@)) {
        (Some(JsonView::Number(marker)), Some(sdk), Some(kit)) => {
            if number_u64(marker) == Some(SCHEMA_VERSION as u64) {
                match (locked_image_of(sdk), locked_images_of(kit)) {
                    (Some(sdk), Some(kit)) => Some(
                        LockView { schema_version: SCHEMA_VERSION, sdk, kit },
                    ),
                    _ => None,
                }
            } else {
                None
            }
        },
        _ => None,
    }
}

/// The lock that the text of a lock file holds.
pub open spec fn stored_lock(text: Seq<char>) -> Option<LockView> {
    match toml_parse(text) {
        Some(doc) => lock_of(doc),
        None => None,
    }
}

/// The JSON document that sums up a lock for the build: the SDK under
/// `sdk` and the kits, in order, under `kit`.
pub open spec fn summary_json(sdk: LockedImageView, kits: Seq<LockedImageView>) -> JsonView {
    JsonView::Object(
        seq![
            ("kit"@, JsonView::Array(images_json(kits))),
            ("sdk"@, image_json(sdk)),
        ],
    )
}

/// What is to be done about the summary file, given what it holds now:
/// nothing where it holds the summary already, else the bytes to write.
pub open spec fn summary_update(summary: Option<Seq<u8>>, existing: Option<Seq<u8>>) -> Result<
    Option<Seq<u8>>,
    ErrorView,
> {
    match summary {
        None => Err(ErrorView::ExternalMetadata),
        Some(bytes) => if existing == Some(bytes) {
            Ok(None)
        } else {
            Ok(Some(bytes))
        },
    }
}

/// The bytes of a byte string, where there is one.
pub open spec fn shown_bytes(bytes: Option<&[u8]>) -> Option<Seq<u8>> {
    match bytes {
        Some(bytes) => Some(bytes@),
        None => None,
    }
}

/// What an update of the summary file says.
pub open spec fn shown_update(update: Result<Option<Vec<u8>>, Error>) -> Result<
    Option<Seq<u8>>,
    ErrorView,
> {
    match update {
        Ok(Some(bytes)) => Ok(Some(bytes@)),
        Ok(None) => Ok(None),
        Err(error) => Err(error@),
    }
}

/// The identities of a lock's SDK and kits, as the build consumes them.
#[derive(Debug)]
pub struct ExternalKitMetadata {
    pub sdk: LockedImage,
    pub kits: Vec<LockedImage>,
}

/// The directories and the manifest that the extraction of one kit needs.
#[derive(Debug)]
pub struct KitExtraction {
    /// The directory to unpack the kit into: `path/vendor/name/arch`.
    pub target_dir: String,
    /// The directory of the cache: `path/cache`.
    pub cache_dir: String,
    /// The reference of the manifest list to fetch.
    pub manifest_uri: String,
}

/// The JSON object that stands for a pinned image.
fn image_to_json(image: &LockedImage) -> (doc: Json)
    ensures
        doc@ == image_json(image@),
{
    let mut members: Vec<(String, Json)> = Vec::new();
    members.push((String::from_str("name"), Json::Text(image.name.clone())));
    members.push((String::from_str("version"), Json::Text(image.version.to_string())));
    members.push((String::from_str("vendor"), Json::Text(image.vendor.clone())));
    members.push((String::from_str("source"), Json::Text(image.source.clone())));
    members.push((String::from_str("digest"), Json::Text(image.digest.clone())));
    proof {
        lemma_object_view(members);
        assert(member_views(members@) =~= image_json(image@)->Object_0);
    }
    Json::Object(members)
}

/// Whether two byte strings are the same.
fn same_bytes(a: &[u8], b: &[u8]) -> (same: bool)
    ensures
        same == (a@ == b@),
{
    if a.len() != b.len() {
        return false;
    }
    let mut i: usize = 0;
    while i < a.len()
        invariant
            i <= a.len(),
            a@.len() == b@.len(),
            forall|j: int| 0 <= j < i ==> a@[j] == b@[j],
        decreases a.len() - i,
    {
        if a[i] != b[i] {
            return false;
        }
        i += 1;
    }
    proof {
        assert(a@ =~= b@);
    }
    true
}

/// The JSON array that stands for a list of pinned images.
fn images_to_json(images: &Vec<LockedImage>) -> (doc: Json)
    ensures
        doc@ == JsonView::Array(images_json(locked_views(images@))),
{
    let mut items: Vec<Json> = Vec::new();
    let mut i: usize = 0;
    while i < images.len()
        invariant
            i <= images.len(),
            items@.len() == i,
            forall|j: int| 0 <= j < i ==> #[trigger] items@[j]@ == image_json(images@[j]@),
        decreases images.len() - i,
    {
        items.push(image_to_json(&images[i]));
        i += 1;
    }
    proof {
        lemma_array_view(items);
        assert(json_views(items@) =~= images_json(locked_views(images@)));
    }
    Json::Array(items)
}

/// Reads a pinned image from the object that declares it.
fn image_from_json(doc: &Json) -> (image: Option<LockedImage>)
    ensures
        match image {
            Some(image) => locked_image_of(doc@) == Some(image@),
            None => locked_image_of(doc@).is_none(),
        },
{
    let name = match doc.text_at("name") {
        Some(name) => name,
        None => {
            return None;
        },
    };
    let version = match doc.text_at("version") {
        Some(version) => version,
        None => {
            return None;
        },
    };
    let vendor = match doc.text_at("vendor") {
        Some(vendor) => vendor,
        None => {
            return None;
        },
    };
    let source = match doc.text_at("source") {
        Some(source) => source,
        None => {
            return None;
        },
    };
    let digest = match doc.text_at("digest") {
        Some(digest) => digest,
        None => {
            return None;
        },
    };
    match Version::parse(version.as_str()) {
        Some(version) => {
            let manifest: Vec<u8> = Vec::new();
            proof {
                assert(manifest@ =~= Seq::empty());
            }
            Some(
                LockedImage {
                    name: name.clone(),
                    version,
                    vendor: vendor.clone(),
                    source: source.clone(),
                    digest: digest.clone(),
                    manifest,
                },
            )
        },
        None => None,
    }
}

/// Reads the pinned images that the items of an array declare.
fn images_from_json(items: &Vec<Json>) -> (images: Option<Vec<LockedImage>>)
    ensures
        match images {
            Some(images) => locked_images_of(json_views(items@)) == Some(locked_views(images@)),
            None => locked_images_of(json_views(items@)).is_none(),
        },
{
    let mut images: Vec<LockedImage> = Vec::new();
    let mut i: usize = 0;
    while i < items.len()
        invariant
            i <= items.len(),
            images@.len() == i,
            forall|j: int|
                0 <= j < i ==> #[trigger] locked_image_of(items@[j]@) == Some(images@[j]@),
        decreases items.len() - i,
    {
        match image_from_json(&items[i]) {
            Some(image) => {
                images.push(image);
            },
            None => {
                proof {
                    assert(json_views(items@)[i as int] == items@[i as int]@);
                }
                return None;
            },
        }
        i += 1;
    }
    proof {
        assert(locked_views(images@) =~= Seq::new(
            items@.len(),
            |i: int| locked_image_of(json_views(items@)[i]).unwrap(),
        ));
    }
    Some(images)
}

impl ExternalKitMetadata {
    /// The JSON document that sums up the lock.
    pub fn to_json(&self) -> (doc: Json)
        ensures
            doc@ == summary_json(self.sdk@, locked_views(self.kits@)),
    {
        let kits = images_to_json(&self.kits);
        let sdk = image_to_json(&self.sdk);
        let mut members: Vec<(String, Json)> = Vec::new();
        members.push((String::from_str("kit"), kits));
        members.push((String::from_str("sdk"), sdk));
        proof {
            lemma_object_view(members);
            assert(member_views(members@) =~= summary_json(
                self.sdk@,
                locked_views(self.kits@),
            )->Object_0);
        }
        Json::Object(members)
    }
}

impl Lock {
    /// Writes the lock as the text of a lock file.
    pub fn to_toml(&self) -> (text: Result<String, Error>)
        ensures
            match text {
                Ok(text) => toml_text(lock_document(self@)) == Some(text@),
                Err(error) => toml_text(lock_document(self@)).is_none() && error@
                    == ErrorView::LockSerialize,
            },
    {
        let marker = Json::Number(number_from_u64(self.schema_version as u64));
        let sdk = image_to_json(&self.sdk);
        let kit = images_to_json(&self.kit);
        let mut members: Vec<(String, Json)> = Vec::new();
        members.push((String::from_str("schema-version"), marker));
        members.push((String::from_str("sdk"), sdk));
        members.push((String::from_str("kit"), kit));
        proof {
            lemma_object_view(members);
            assert(member_views(members@) =~= lock_document(self@)->Object_0);
        }
        match write_toml(&Json::Object(members)) {
            Some(text) => Ok(text),
            None => Err(Error::LockSerialize),
        }
    }

    /// Reads a lock from the text of a lock file. The images it holds
    /// carry no manifest.
    pub fn from_toml(text: &str) -> (lock: Result<Lock, Error>)
        ensures
            match lock {
                Ok(lock) => stored_lock(text@) == Some(lock@),
                Err(error) => stored_lock(text@).is_none() && error@ == ErrorView::LockFormat,
            },
    {
        let doc = match parse_toml(text) {
            Some(doc) => doc,
            None => {
                return Err(Error::LockFormat);
            },
        };
        let marker = match doc.get("schema-version") {
            Some(Json::Number(marker)) => number_as_u64(marker),
            _ => {
                return Err(Error::LockFormat);
            },
        };
        let sdk = match doc.get("sdk") {
            Some(sdk) => sdk,
            None => {
                return Err(Error::LockFormat);
            },
        };
        let kit = match doc.items_at("kit") {
            Some(kit) => kit,
            None => {
                return Err(Error::LockFormat);
            },
        };
        match marker {
            Some(marker) => {
                if marker != SCHEMA_VERSION as u64 {
                    return Err(Error::LockFormat);
                }
            },
            None => {
                return Err(Error::LockFormat);
            },
        }
        let sdk = match image_from_json(sdk) {
            Some(sdk) => sdk,
            None => {
                return Err(Error::LockFormat);
            },
        };
        match images_from_json(kit) {
            Some(kit) => Ok(Lock { schema_version: SCHEMA_VERSION, sdk, kit }),
            None => Err(Error::LockFormat),
        }
    }

    /// Checks a stored lock against a fresh resolution of the same
    /// project. The stored lock is handed back where both hold the same
    /// records: the same marker and, for the SDK and for each kit in its
    /// place, the same name, version, vendor, reference and fingerprint.
    /// Any difference means that the lock file, the declarations or the
    /// registry have changed since it was written.
    pub fn load(stored: Lock, fresh: &Lock) -> (checked: Result<Lock, Error>)
        ensures
            match checked {
                Ok(lock) => stored@.same_records(fresh@) && lock@ == stored@,
                Err(error) => !stored@.same_records(fresh@) && error@ == ErrorView::LockOutdated,
            },
    {
        if stored.schema_version != fresh.schema_version || !stored.sdk.same_record(&fresh.sdk)
            || stored.kit.len() != fresh.kit.len() {
            return Err(Error::LockOutdated);
        }
        let mut i: usize = 0;
        while i < stored.kit.len()
            invariant
                i <= stored.kit.len(),
                stored.kit.len() == fresh.kit.len(),
                forall|j: int|
                    0 <= j < i ==> (#[trigger] stored.kit@[j]@).same_record(fresh.kit@[j]@),
            decreases stored.kit.len() - i,
        {
            if !stored.kit[i].same_record(&fresh.kit[i]) {
                proof {
                    assert(!(locked_views(stored.kit@)[i as int]).same_record(
                        locked_views(fresh.kit@)[i as int],
                    ));
                }
                return Err(Error::LockOutdated);
            }
            i += 1;
        }
        proof {
            assert forall|j: int| 0 <= j < stored@.kit.len() implies (
            #[trigger] stored@.kit[j]).same_record(fresh@.kit[j]) by {
                assert((stored.kit@[j]@).same_record(fresh.kit@[j]@));
            }
        }
        Ok(stored)
    }

    /// The identities of the SDK and the kits, for the build.
    pub fn external_kit_metadata(&self) -> (summary: ExternalKitMetadata)
        ensures
            summary.sdk@ == self@.sdk,
            locked_views(summary.kits@) == self@.kit,
    {
        let copy = self.clone();
        ExternalKitMetadata { sdk: copy.sdk, kits: copy.kit }
    }

    /// Writes the summary of the lock as canonical JSON and compares it
    /// with what the summary file holds now, if it exists: `Ok(None)`
    /// where the file holds exactly these bytes and can be left alone,
    /// else the bytes to write.
    pub fn fetch(&self, existing: Option<&[u8]>) -> (update: Result<Option<Vec<u8>>, Error>)
        ensures
            shown_update(update) == summary_update(
                canonical_json(summary_json(self@.sdk, self@.kit)),
                shown_bytes(existing),
            ),
    {
        let doc = self.external_kit_metadata().to_json();
        let bytes = match write_canonical_json(&doc) {
            Some(bytes) => bytes,
            None => {
                return Err(Error::ExternalMetadata);
            },
        };
        match existing {
            Some(existing) => {
                if same_bytes(existing, bytes.as_slice()) {
                    return Ok(None);
                }
            },
            None => {},
        }
        Ok(Some(bytes))
    }

    /// Picks, from the manifest list that the registry served for
    /// `image`, the manifest for the architecture that `arch` names.
    pub fn get_manifest(manifest: &[u8], image: &LockedImage, arch: &str) -> (entry: Result<
        ManifestEntry,
        Error,
    >)
        ensures
            yields(entry, manifest_for(manifest@, image@.source, arch@)),
    {
        let entries = match ManifestEntry::list(manifest) {
            Some(entries) => entries,
            None => {
                return Err(Error::ManifestList);
            },
        };
        let wanted = match DockerArchitecture::try_from(arch) {
            Ok(wanted) => wanted,
            Err(error) => {
                return Err(error);
            },
        };
        match ManifestEntry::find(&entries, wanted) {
            Some(entry) => Ok(entry.clone()),
            None => Err(Error::ArchitectureNotFound { arch: wanted, source: image.source.clone() }),
        }
    }

    /// Says where the kit `image` is unpacked to for `arch` under `path`,
    /// where its archive is cached, and which manifest list must be
    /// fetched to find its manifest for that architecture.
    pub fn extract_kit(path: &str, image: &LockedImage, arch: &str) -> (plan: KitExtraction)
        ensures
            plan.target_dir@ == path@ + "/"@ + image@.vendor + "/"@ + image@.name + "/"@ + arch@,
            plan.cache_dir@ == path@ + "/cache"@,
            plan.manifest_uri@ == image@.source,
    {
        let mut target_dir = String::from_str(path);
        target_dir.append("/");
        target_dir.append(image.vendor.as_str());
        target_dir.append("/");
        target_dir.append(image.name.as_str());
        target_dir.append("/");
        target_dir.append(arch);
        let mut cache_dir = String::from_str(path);
        cache_dir.append("/cache");
        KitExtraction { target_dir, cache_dir, manifest_uri: image.source.clone() }
    }
}

} // verus!
