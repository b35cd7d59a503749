//! Images: as a project names them, and as a resolution pins them.
use vstd::prelude::*;
use vstd::std_specs::cmp::PartialEqSpec;
use vstd::string::StringExecFns;
use crate::digest::{fingerprint, manifest_digest};
use crate::text::{replace_all, replaced_all};
use crate::version::Version;

verus! {

/// A registry under which kit and SDK images are published.
#[derive(Debug)]
pub struct Vendor {
    pub registry: String,
}

impl Clone for Vendor {
    fn clone(&self) -> (copy: Self)
        ensures
            copy.registry@ == self.registry@,
    {
        Vendor { registry: self.registry.clone() }
    }
}

/// A dependency as it is declared: a name, an exact version, and the name of
/// the vendor that publishes it.
#[derive(Debug)]
pub struct Image {
    pub name: String,
    pub version: Version,
    pub vendor: String,
}

/// What an `Image` says.
pub struct ImageView {
    pub name: Seq<char>,
    pub version: Seq<char>,
    pub vendor: Seq<char>,
}

impl ImageView {
    /// The pair under which a dependency is known: one version per key.
    pub open spec fn key(self) -> (Seq<char>, Seq<char>) {
        (self.name, self.vendor)
    }

    /// The text `name-version@vendor`.
    pub open spec fn text(self) -> Seq<char> {
        self.name + "-"@ + self.version + "@"@ + self.vendor
    }
}

impl View for Image {
    type V = ImageView;

    open spec fn view(&self) -> ImageView {
        ImageView { name: self.name@, version: self.version@, vendor: self.vendor@ }
    }
}

/// The views of a list of images.
pub open spec fn image_views(images: Seq<Image>) -> Seq<ImageView> {
    images.map_values(|image: Image| image@)
}

impl Image {
    /// Renders the image as `name-version@vendor`.
    pub fn to_string(&self) -> (text: String)
        ensures
            text@ == self@.text(),
    {
        let mut text = self.name.clone();
        text.append("-");
        text.append(self.version.as_str());
        text.append("@");
        text.append(self.vendor.as_str());
        text
    }

    /// Whether both images are declared under the same name and vendor.
    pub fn same_key(&self, other: &Image) -> (same: bool)
        ensures
            same == (self@.key() == other@.key()),
    {
        self.name == other.name && self.vendor == other.vendor
    }
}

impl Clone for Image {
    fn clone(&self) -> (copy: Self)
        ensures
            copy@ == self@,
    {
        Image {
            name: self.name.clone(),
            version: self.version.clone(),
            vendor: self.vendor.clone(),
        }
    }
}

impl PartialEq for Image {
    fn eq(&self, other: &Self) -> (same: bool) {
        self.name == other.name && self.version == other.version && self.vendor == other.vendor
    }
}

impl Eq for Image {

}

impl vstd::std_specs::cmp::PartialEqSpecImpl for Image {
    open spec fn obeys_eq_spec() -> bool {
        true
    }

    open spec fn eq_spec(&self, other: &Self) -> bool {
        self@ == other@
    }
}

/// The reference `registry/name:vVERSION` under which an image is fetched.
pub open spec fn source_text(registry: Seq<char>, name: Seq<char>, version: Seq<char>) -> Seq<
    char,
> {
    registry + "/"@ + name + ":v"@ + version
}

/// A dependency pinned to the manifest that the registry served for it.
#[derive(Debug)]
pub struct LockedImage {
    /// The name of the dependency.
    pub name: String,
    /// Its exact version.
    pub version: Version,
    /// The vendor it came from.
    pub vendor: String,
    /// The reference it was fetched under.
    pub source: String,
    /// The fingerprint of its manifest.
    pub digest: String,
    /// The manifest itself; kept in memory only.
    pub manifest: Vec<u8>,
}

/// What a `LockedImage` says.
pub struct LockedImageView {
    pub name: Seq<char>,
    pub version: Seq<char>,
    pub vendor: Seq<char>,
    pub source: Seq<char>,
    pub digest: Seq<char>,
    pub manifest: Seq<u8>,
}

impl LockedImageView {
    /// The declared image that this one pins.
    pub open spec fn image(self) -> ImageView {
        ImageView { name: self.name, version: self.version, vendor: self.vendor }
    }

    /// The pair under which the dependency is known.
    pub open spec fn key(self) -> (Seq<char>, Seq<char>) {
        (self.name, self.vendor)
    }

    /// Identity: the same reference, pinned to the same fingerprint. Name,
    /// version and vendor describe and do not identify.
    pub open spec fn same_pin(self, other: LockedImageView) -> bool {
        self.source == other.source && self.digest == other.digest
    }

    /// The same record: name, version, vendor, reference and fingerprint all
    /// agree. The manifest, which is never stored, takes no part.
    pub open spec fn same_record(self, other: LockedImageView) -> bool {
        &&& self.name == other.name
        &&& self.version == other.version
        &&& self.vendor == other.vendor
        &&& self.source == other.source
        &&& self.digest == other.digest
    }

    /// The part that takes part in hashing: everything but the reference and
    /// the fingerprint, so that two pins of one dependency collide.
    pub open spec fn hashed(self) -> (Seq<char>, Seq<char>, Seq<char>) {
        (self.name, self.version, self.vendor)
    }

    /// The text `name-version@vendor (source)`.
    pub open spec fn text(self) -> Seq<char> {
        self.name + "-"@ + self.version + "@"@ + self.vendor + " ("@ + self.source + ")"@
    }

    /// The reference with its version tag replaced by `@digest`.
    pub open spec fn digest_uri(self, digest: Seq<char>) -> Seq<char> {
        replaced_all(self.source, ":v"@ + self.version, "@"@ + digest)
    }
}

impl View for LockedImage {
    type V = LockedImageView;

    open spec fn view(&self) -> LockedImageView {
        LockedImageView {
            name: self.name@,
            version: self.version@,
            vendor: self.vendor@,
            source: self.source@,
            digest: self.digest@,
            manifest: self.manifest@,
        }
    }
}

/// The views of a list of pinned images.
pub open spec fn locked_views(images: Seq<LockedImage>) -> Seq<LockedImageView> {
    images.map_values(|image: LockedImage| image@)
}

impl LockedImage {
    /// The reference to ask the registry for: `registry/name:vVERSION`.
    pub fn source_of(vendor: &Vendor, image: &Image) -> (source: String)
        ensures
            source@ == source_text(vendor.registry@, image.name@, image.version@),
    {
        let mut source = vendor.registry.clone();
        source.append("/");
        source.append(image.name.as_str());
        source.append(":v");
        source.append(image.version.as_str());
        source
    }

    /// Pins `image` to `manifest`, the bytes that the registry served for
    /// `LockedImage::source_of(vendor, image)`.
    pub fn new(vendor: &Vendor, image: &Image, manifest: Vec<u8>) -> (locked: LockedImage)
        ensures
            locked@.image() == image@,
            locked@.source == source_text(vendor.registry@, image.name@, image.version@),
            locked@.digest == fingerprint(manifest@),
            locked@.manifest == manifest@,
    {
        let source = LockedImage::source_of(vendor, image);
        let digest = manifest_digest(manifest.as_slice());
        LockedImage {
            name: image.name.clone(),
            version: image.version.clone(),
            vendor: image.vendor.clone(),
            source,
            digest,
            manifest,
        }
    }

    /// The reference that names this image by `digest` in place of its
    /// version tag.
    pub fn digest_uri(&self, digest: &str) -> (uri: String)
        ensures
            uri@ == self@.digest_uri(digest@),
    {
        let mut tag = String::from_str(":v");
        tag.append(self.version.as_str());
        let mut pin = String::from_str("@");
        pin.append(digest);
        replace_all(self.source.as_str(), tag.as_str(), pin.as_str())
    }

    /// Renders the image as `name-version@vendor (source)`.
    pub fn to_string(&self) -> (text: String)
        ensures
            text@ == self@.text(),
    {
        let mut text = self.name.clone();
        text.append("-");
        text.append(self.version.as_str());
        text.append("@");
        text.append(self.vendor.as_str());
        text.append(" (");
        text.append(self.source.as_str());
        text.append(")");
        text
    }

    /// Whether both say the same of the image in every stored field: name,
    /// version, vendor, reference and fingerprint.
    pub fn same_record(&self, other: &LockedImage) -> (same: bool)
        ensures
            same == self@.same_record(other@),
    {
        self.name == other.name && self.version == other.version && self.vendor == other.vendor
            && self.source == other.source && self.digest == other.digest
    }

    /// The declared image that this one pins.
    pub fn image(&self) -> (image: Image)
        ensures
            image@ == self@.image(),
    {
        Image {
            name: self.name.clone(),
            version: self.version.clone(),
            vendor: self.vendor.clone(),
        }
    }
}

impl Clone for LockedImage {
    fn clone(&self) -> (copy: Self)
        ensures
            copy@ == self@,
    {
        LockedImage {
            name: self.name.clone(),
            version: self.version.clone(),
            vendor: self.vendor.clone(),
            source: self.source.clone(),
            digest: self.digest.clone(),
            manifest: self.manifest.clone(),
        }
    }
}

impl PartialEq for LockedImage {
    fn eq(&self, other: &Self) -> (same: bool) {
        self.source == other.source && self.digest == other.digest
    }
}

impl Eq for LockedImage {

}

impl vstd::std_specs::cmp::PartialEqSpecImpl for LockedImage {
    open spec fn obeys_eq_spec() -> bool {
        true
    }

    open spec fn eq_spec(&self, other: &Self) -> bool {
        self@.same_pin(other@)
    }
}

/// Feeds name, version and vendor to the hasher, through `Hash::hash` of
/// the standard library, and leaves the reference and the fingerprint out,
/// so that two pins of one dependency land together in a hashed collection
/// and can be told apart there by `==`. Nothing is claimed of the hash.
impl std::hash::Hash for LockedImage {
    #[verifier::external_body]
    fn hash<H: std::hash::Hasher>(&self, state: &mut H) {
        (&self.name, self.version.as_str(), &self.vendor).hash(state);
    }
}

/// Two pinned images with the same reference and fingerprint are equal,
/// whatever their names, versions and vendors say.
pub proof fn same_pin_ignores_description(a: LockedImage, b: LockedImage)
    requires
        a.source@ == b.source@,
        a.digest@ == b.digest@,
    ensures
        a.eq_spec(&b),
{
}

/// Two pinned images with different fingerprints are unequal, even where
/// name, version and vendor agree; what takes part in hashing still agrees.
pub proof fn different_digest_is_different_pin(a: LockedImage, b: LockedImage)
    requires
        a@.image() == b@.image(),
        a.digest@ != b.digest@,
    ensures
        !a.eq_spec(&b),
        a@.hashed() == b@.hashed(),
{
}

} // verus!
