//! What can go wrong, with the names an operator needs to mend it.
use vstd::prelude::*;
use vstd::string::StringExecFns;
use crate::image::{image_views, Image, ImageView};
use crate::metadata::{debug_text, EncodedKitMetadata};
use crate::text::{join, joined, texts};
use crate::version::Version;

verus! {

/// The processor architectures that images are published for.
#[derive(Debug, Clone, Copy, PartialEq, Eq, Structural)]
pub enum DockerArchitecture {
    Amd64,
    Arm64,
}

/// A failure of resolution, of a lock check or of an extraction.
#[derive(Debug)]
pub enum Error {
    /// A kit is asked for in two versions.
    VersionConflict { name: String, vendor: String, declared: Version, known: Version },
    /// An image names a vendor that the project does not declare.
    UnknownVendor { vendor: String },
    /// The kits and the project ask for more than one SDK.
    MultipleSdks { found: Vec<Image> },
    /// Neither the project nor any kit asks for an SDK.
    NoSdk,
    /// The manifest of a kit is no manifest list.
    ManifestList,
    /// The manifest list of a kit is empty; `image` is the kit, rendered.
    NoMetadata { image: String },
    /// An image carries no kit metadata label.
    NotAKit,
    /// Two platforms of one kit carry different metadata.
    MetadataMismatch { canonical: String, divergent: String },
    /// The metadata label is not base64.
    MetadataBase64,
    /// The metadata label does not hold kit metadata as JSON.
    MetadataJson,
    /// An answer was handed to a state that did not ask for it.
    OutOfTurn,
    /// The lock file does not hold a lock.
    LockFormat,
    /// The lock cannot be written as a lock file.
    LockSerialize,
    /// The stored lock differs from what resolution gives now.
    LockOutdated,
    /// The summary of the lock cannot be written as canonical JSON.
    ExternalMetadata,
    /// The architecture asked for is not one that images are published for.
    InvalidArchitecture { name: String },
    /// The manifest list has no image for the architecture.
    ArchitectureNotFound { arch: DockerArchitecture, source: String },
    /// The index of a pulled archive cannot be read.
    ImageIndex,
    /// The index of a pulled archive lists no manifest.
    EmptyImage,
    /// The manifest of a pulled archive cannot be read.
    ImageManifest,
    /// A layer is named by a digest that is not SHA-256.
    InvalidLayerDigest { digest: String },
}

/// What an `Error` says.
pub enum ErrorView {
    VersionConflict { name: Seq<char>, vendor: Seq<char>, declared: Seq<char>, known: Seq<char> },
    UnknownVendor { vendor: Seq<char> },
    MultipleSdks { found: Seq<ImageView> },
    NoSdk,
    ManifestList,
    NoMetadata { image: Seq<char> },
    NotAKit,
    MetadataMismatch { canonical: Seq<char>, divergent: Seq<char> },
    MetadataBase64,
    MetadataJson,
    OutOfTurn,
    LockFormat,
    LockSerialize,
    LockOutdated,
    ExternalMetadata,
    InvalidArchitecture { name: Seq<char> },
    ArchitectureNotFound { arch: DockerArchitecture, source: Seq<char> },
    ImageIndex,
    EmptyImage,
    ImageManifest,
    InvalidLayerDigest { digest: Seq<char> },
}

impl View for Error {
    type V = ErrorView;

    open spec fn view(&self) -> ErrorView {
        match *self {
            Error::VersionConflict { name, vendor, declared, known } => ErrorView::VersionConflict {
                name: name@,
                vendor: vendor@,
                declared: declared@,
                known: known@,
            },
            Error::UnknownVendor { vendor } => ErrorView::UnknownVendor { vendor: vendor@ },
            Error::MultipleSdks { found } => ErrorView::MultipleSdks { found: image_views(found@) },
            Error::NoSdk => ErrorView::NoSdk,
            Error::ManifestList => ErrorView::ManifestList,
            Error::NoMetadata { image } => ErrorView::NoMetadata { image: image@ },
            Error::NotAKit => ErrorView::NotAKit,
            Error::MetadataMismatch { canonical, divergent } => ErrorView::MetadataMismatch {
                canonical: canonical@,
                divergent: divergent@,
            },
            Error::MetadataBase64 => ErrorView::MetadataBase64,
            Error::MetadataJson => ErrorView::MetadataJson,
            Error::OutOfTurn => ErrorView::OutOfTurn,
            Error::LockFormat => ErrorView::LockFormat,
            Error::LockSerialize => ErrorView::LockSerialize,
            Error::LockOutdated => ErrorView::LockOutdated,
            Error::ExternalMetadata => ErrorView::ExternalMetadata,
            Error::InvalidArchitecture { name } => ErrorView::InvalidArchitecture { name: name@ },
            Error::ArchitectureNotFound { arch, source } => ErrorView::ArchitectureNotFound {
                arch,
                source: source@,
            },
            Error::ImageIndex => ErrorView::ImageIndex,
            Error::EmptyImage => ErrorView::EmptyImage,
            Error::ImageManifest => ErrorView::ImageManifest,
            Error::InvalidLayerDigest { digest } => ErrorView::InvalidLayerDigest { digest: digest@ },
        }
    }
}


impl DockerArchitecture {
    /// The name under which manifests carry the architecture.
    pub open spec fn text(self) -> Seq<char> {
        match self {
            DockerArchitecture::Amd64 => "amd64"@,
            DockerArchitecture::Arm64 => "arm64"@,
        }
    }

    /// The name under which manifests carry the architecture.
    pub fn to_string(&self) -> (name: String)
        ensures
            name@ == self.text(),
    {
        match self {
            DockerArchitecture::Amd64 => String::from_str("amd64"),
            DockerArchitecture::Arm64 => String::from_str("arm64"),
        }
    }
}

impl ErrorView {
    /// The one message that the operator sees, with the names needed to
    /// act on it.
    pub open spec fn message(self) -> Seq<char> {
        match self {
            ErrorView::VersionConflict { name, vendor, declared, known } => {
                "cannot have multiple versions of the same kit ("@ + name + "-"@ + declared + "@"@
                    + vendor + " != "@ + name + "-"@ + known + "@"@ + vendor
            },
            ErrorView::UnknownVendor { vendor } => {
                "vendor '"@ + vendor + "' is not specified in Twoliter.toml"@
            },
            ErrorView::MultipleSdks { found } => {
                "cannot use multiple sdks (found sdk: "@ + joined(
                    found.map_values(|sdk: ImageView| sdk.text()),
                    ", "@,
                ) + ")"@
            },
            ErrorView::NoSdk => "no sdk was found for use, please specify a sdk in Twoliter.toml"@,
            ErrorView::ManifestList => "failed to deserialize manifest list"@,
            ErrorView::NoMetadata { image } => "could not find metadata for kit "@ + image,
            ErrorView::NotAKit => "no metadata stored on image, this image appears to not be a kit"@,
            ErrorView::MetadataMismatch { canonical, divergent } => {
                "Metadata does not match between images in manifest list: "@ + debug_text(
                    canonical,
                ) + " != "@ + debug_text(divergent)
            },
            ErrorView::MetadataBase64 => "Failed to decode and parse kit metadata: failed to decode kit metadata as base64"@,
            ErrorView::MetadataJson => "Failed to decode and parse kit metadata: failed to parse kit metadata json"@,
            ErrorView::OutOfTurn => "an answer was given that was not asked for"@,
            ErrorView::LockFormat => "failed to deserialize lockfile"@,
            ErrorView::LockSerialize => "failed to serialize lock file"@,
            ErrorView::LockOutdated => "changes have occured to Twoliter.toml or the remote kit images that require an update to Twoliter.lock"@,
            ErrorView::ExternalMetadata => "failed to serialize external kit metadata"@,
            ErrorView::InvalidArchitecture { name } => "invalid architecture '"@ + name + "'"@,
            ErrorView::ArchitectureNotFound { arch, source } => {
                "could not find kit image for architecture '"@ + arch.text() + "' at "@ + source
            },
            ErrorView::ImageIndex => "failed to deserialize oci image index"@,
            ErrorView::EmptyImage => "empty oci image"@,
            ErrorView::ImageManifest => "failed to deserialize oci manifest"@,
            ErrorView::InvalidLayerDigest { digest } => {
                "failed to deserialize oci manifest: invalid digest detected in layer: "@ + digest
            },
        }
    }
}

impl Error {
    /// Renders the message for the operator.
    pub fn message(&self) -> (text: String)
        ensures
            text@ == self@.message(),
    {
        match self {
            Error::VersionConflict { name, vendor, declared, known } => {
                let mut text = String::from_str("cannot have multiple versions of the same kit (");
                text.append(name.as_str());
                text.append("-");
                text.append(declared.as_str());
                text.append("@");
                text.append(vendor.as_str());
                text.append(" != ");
                text.append(name.as_str());
                text.append("-");
                text.append(known.as_str());
                text.append("@");
                text.append(vendor.as_str());
                text
            },
            Error::UnknownVendor { vendor } => {
                let mut text = String::from_str("vendor '");
                text.append(vendor.as_str());
                text.append("' is not specified in Twoliter.toml");
                text
            },
            Error::MultipleSdks { found } => {
                let mut names: Vec<String> = Vec::new();
                let mut i: usize = 0;
                while i < found.len()
                    invariant
                        i <= found.len(),
                        names@.len() == i,
                        forall|j: int| 0 <= j < i ==> #[trigger] names@[j]@ == found@[j]@.text(),
                    decreases found.len() - i,
                {
                    names.push(found[i].to_string());
                    i += 1;
                }
                proof {
                    assert(texts(names@) =~= image_views(found@).map_values(
                        |sdk: ImageView| sdk.text(),
                    ));
                }
                let mut text = String::from_str("cannot use multiple sdks (found sdk: ");
                text.append(join(&names, ", ").as_str());
                text.append(")");
                text
            },
            Error::NoSdk => String::from_str(
                "no sdk was found for use, please specify a sdk in Twoliter.toml",
            ),
            Error::ManifestList => String::from_str("failed to deserialize manifest list"),
            Error::NoMetadata { image } => {
                let mut text = String::from_str("could not find metadata for kit ");
                text.append(image.as_str());
                text
            },
            Error::NotAKit => String::from_str(
                "no metadata stored on image, this image appears to not be a kit",
            ),
            Error::MetadataMismatch { canonical, divergent } => {
                let canonical = EncodedKitMetadata(canonical.clone());
                let divergent = EncodedKitMetadata(divergent.clone());
                let mut text = String::from_str(
                    "Metadata does not match between images in manifest list: ",
                );
                text.append(canonical.try_debug_image_metadata().as_str());
                text.append(" != ");
                text.append(divergent.try_debug_image_metadata().as_str());
                text
            },
            Error::MetadataBase64 => String::from_str(
                "Failed to decode and parse kit metadata: failed to decode kit metadata as base64",
            ),
            Error::MetadataJson => String::from_str(
                "Failed to decode and parse kit metadata: failed to parse kit metadata json",
            ),
            Error::OutOfTurn => String::from_str("an answer was given that was not asked for"),
            Error::LockFormat => String::from_str("failed to deserialize lockfile"),
            Error::LockSerialize => String::from_str("failed to serialize lock file"),
            Error::LockOutdated => String::from_str(
                "changes have occured to Twoliter.toml or the remote kit images that require an update to Twoliter.lock",
            ),
            Error::ExternalMetadata => String::from_str("failed to serialize external kit metadata"),
            Error::InvalidArchitecture { name } => {
                let mut text = String::from_str("invalid architecture '");
                text.append(name.as_str());
                text.append("'");
                text
            },
            Error::ArchitectureNotFound { arch, source } => {
                let mut text = String::from_str("could not find kit image for architecture '");
                text.append(arch.to_string().as_str());
                text.append("' at ");
                text.append(source.as_str());
                text
            },
            Error::ImageIndex => String::from_str("failed to deserialize oci image index"),
            Error::EmptyImage => String::from_str("empty oci image"),
            Error::ImageManifest => String::from_str("failed to deserialize oci manifest"),
            Error::InvalidLayerDigest { digest } => {
                let mut text = String::from_str(
                    "failed to deserialize oci manifest: invalid digest detected in layer: ",
                );
                text.append(digest.as_str());
                text
            },
        }
    }
}

} // verus!
