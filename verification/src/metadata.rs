//! The metadata that a kit image carries about itself.
use vstd::prelude::*;
use vstd::string::StringExecFns;
use crate::digest::{base64_bytes, base64_decode};
use crate::error::{Error, ErrorView};
use crate::image::{image_views, Image, ImageView};
use crate::json::{json_parse, json_views, parse_json, Json, JsonView};
use crate::text::{join, joined, replace_char, replaced_char, text_eq, texts};
use crate::version::{semver_text, Version};

verus! {

/// `found` is there exactly when `wanted` is, and then shows it.
pub open spec fn shows<T: View>(found: Option<T>, wanted: Option<T::V>) -> bool {
    match found {
        Some(value) => wanted == Some(value@),
        None => wanted.is_none(),
    }
}

/// `outcome` fails exactly when `wanted` does, with the same error, and
/// otherwise shows the same value.
pub open spec fn yields<T: View>(outcome: Result<T, Error>, wanted: Result<T::V, ErrorView>) -> bool {
    match outcome {
        Ok(value) => wanted == Ok::<T::V, ErrorView>(value@),
        Err(error) => wanted == Err::<T::V, ErrorView>(error@),
    }
}

/// The image that a JSON object declares by its string members `name`,
/// `version` and `vendor`; other members are passed over.
pub open spec fn image_of(doc: JsonView) -> Option<ImageView> {
    match (doc.text_member("name"@), doc.text_member("version"@), doc.text_member("vendor"@)) {
        (Some(name), Some(version), Some(vendor)) => match semver_text(version) {
            Some(printed) => Some(ImageView { name, version: printed, vendor }),
            None => None,
        },
        _ => None,
    }
}

/// The images that the items of a JSON array declare, if every item
/// declares one.
pub open spec fn images_of(items: Seq<JsonView>) -> Option<Seq<ImageView>> {
    if forall|i: int| 0 <= i < items.len() ==> (#[trigger] image_of(items[i])).is_some() {
        Some(Seq::new(items.len(), |i: int| image_of(items[i]).unwrap()))
    } else {
        None
    }
}

/// What a kit says of itself: its name and version, the SDK it is built
/// with, and the kits it depends on, in the order it lists them.
#[derive(Debug)]
pub struct ImageMetadata {
    pub name: String,
    pub version: Version,
    pub sdk: Image,
    pub kits: Vec<Image>,
}

/// What an `ImageMetadata` says.
pub struct ImageMetadataView {
    pub name: Seq<char>,
    pub version: Seq<char>,
    pub sdk: ImageView,
    pub kits: Seq<ImageView>,
}

impl ImageMetadataView {
    /// The rendering `ImageMetadata { name: .., version: .., sdk: .., kit: [..] }`.
    pub open spec fn text(self) -> Seq<char> {
        "ImageMetadata { name: "@ + self.name + ", version: "@ + self.version + ", sdk: "@
            + self.sdk.text() + ", kit: ["@ + joined(
            self.kits.map_values(|kit: ImageView| kit.text()),
            ", "@,
        ) + "] }"@
    }
}

impl View for ImageMetadata {
    type V = ImageMetadataView;

    open spec fn view(&self) -> ImageMetadataView {
        ImageMetadataView {
            name: self.name@,
            version: self.version@,
            sdk: self.sdk@,
            kits: image_views(self.kits@),
        }
    }
}

/// The metadata that a JSON object declares: string members `name` and
/// `version`, an image under `sdk`, and an array of images under `kit`.
pub open spec fn metadata_of(doc: JsonView) -> Option<ImageMetadataView> {
    match (
        doc.text_member("name"@),
        doc.text_member("version"@),
        doc.member("sdk"@),
        doc.items_member("kit"@),
    ) {
        (Some(name), Some(version), Some(sdk), Some(kits)) => match (
            semver_text(version),
            image_of(sdk),
            images_of(kits),
        ) {
            (Some(printed), Some(sdk), Some(kits)) => Some(
                ImageMetadataView { name, version: printed, sdk, kits },
            ),
            _ => None,
        },
        _ => None,
    }
}

/// The metadata that a label value carries: base64 text of a JSON document
/// that declares it.
pub open spec fn decoded_metadata(label: Seq<char>) -> Result<ImageMetadataView, ErrorView> {
    match base64_bytes(label) {
        None => Err(ErrorView::MetadataBase64),
        Some(bytes) => match json_parse(bytes) {
            None => Err(ErrorView::MetadataJson),
            Some(doc) => match metadata_of(doc) {
                None => Err(ErrorView::MetadataJson),
                Some(metadata) => Ok(metadata),
            },
        },
    }
}

impl Image {
    /// Reads an image from the JSON object that declares it.
    pub fn from_json(doc: &Json) -> (image: Option<Image>)
        ensures
            shows(image, image_of(doc@)),
    {
        let name = match doc.text_at("name") {
            Some(name) => name,
            None => { return None; },
        };
        let version = match doc.text_at("version") {
            Some(version) => version,
            None => { return None; },
        };
        let vendor = match doc.text_at("vendor") {
            Some(vendor) => vendor,
            None => { return None; },
        };
        match Version::parse(version.as_str()) {
            Some(version) => Some(Image { name: name.clone(), version, vendor: vendor.clone() }),
            None => None,
        }
    }

    /// Reads the images that the items of a JSON array declare.
    pub fn all_from_json(items: &Vec<Json>) -> (images: Option<Vec<Image>>)
        ensures
            match images {
                Some(images) => images_of(json_views(items@)) == Some(image_views(images@)),
                None => images_of(json_views(items@)).is_none(),
            },
    {
        let mut images: Vec<Image> = Vec::new();
        let mut i: usize = 0;
        while i < items.len()
            invariant
                i <= items.len(),
                images@.len() == i,
                forall|j: int| 0 <= j < i ==> #[trigger] image_of(items@[j]@) == Some(images@[j]@),
            decreases items.len() - i,
        {
            match Image::from_json(&items[i]) {
                Some(image) => {
                    images.push(image);
                },
                None => {
                    proof {
                        assert(json_views(items@)[i as int] == items@[i as int]@);
                    }
                    return None;
                },
            }
            i += 1;
        }
        proof {
            assert(image_views(images@) =~= Seq::new(
                items@.len(),
                |i: int| image_of(json_views(items@)[i]).unwrap(),
            ));
        }
        Some(images)
    }
}

impl PartialEq for ImageMetadata {
    fn eq(&self, other: &Self) -> (same: bool) {
        if self.name != other.name || self.version != other.version || self.sdk != other.sdk {
            return false;
        }
        if self.kits.len() != other.kits.len() {
            proof {
                assert(image_views(self.kits@).len() != image_views(other.kits@).len());
            }
            return false;
        }
        let mut i: usize = 0;
        while i < self.kits.len()
            invariant
                i <= self.kits.len(),
                self.kits.len() == other.kits.len(),
                self.name@ == other.name@,
                self.version@ == other.version@,
                self.sdk@ == other.sdk@,
                forall|j: int| 0 <= j < i ==> #[trigger] self.kits@[j]@ == other.kits@[j]@,
            decreases self.kits.len() - i,
        {
            if self.kits[i] != other.kits[i] {
                proof {
                    assert(image_views(self.kits@)[i as int] != image_views(other.kits@)[i as int]);
                }
                return false;
            }
            i += 1;
        }
        proof {
            assert(image_views(self.kits@) =~= image_views(other.kits@));
        }
        true
    }
}

impl Eq for ImageMetadata {

}

impl vstd::std_specs::cmp::PartialEqSpecImpl for ImageMetadata {
    open spec fn obeys_eq_spec() -> bool {
        true
    }

    open spec fn eq_spec(&self, other: &Self) -> bool {
        self@ == other@
    }
}

impl ImageMetadata {
    /// Reads kit metadata from the JSON object that declares it.
    pub fn from_json(doc: &Json) -> (metadata: Option<ImageMetadata>)
        ensures
            shows(metadata, metadata_of(doc@)),
    {
        let name = match doc.text_at("name") {
            Some(name) => name,
            None => { return None; },
        };
        let version = match doc.text_at("version") {
            Some(version) => version,
            None => { return None; },
        };
        let sdk = match doc.get("sdk") {
            Some(sdk) => sdk,
            None => { return None; },
        };
        let kits = match doc.items_at("kit") {
            Some(kits) => kits,
            None => { return None; },
        };
        let version = match Version::parse(version.as_str()) {
            Some(version) => version,
            None => { return None; },
        };
        let sdk = match Image::from_json(sdk) {
            Some(sdk) => sdk,
            None => { return None; },
        };
        match Image::all_from_json(kits) {
            Some(kits) => Some(ImageMetadata { name: name.clone(), version, sdk, kits }),
            None => None,
        }
    }

    /// Decodes the metadata that a kit's label carries.
    pub fn try_from(value: &EncodedKitMetadata) -> (metadata: Result<ImageMetadata, Error>)
        ensures
            yields(metadata, decoded_metadata(value@)),
    {
        let bytes = match base64_decode(value.0.as_str()) {
            Some(bytes) => bytes,
            None => { return Err(Error::MetadataBase64); },
        };
        let doc = match parse_json(bytes.as_slice()) {
            Some(doc) => doc,
            None => { return Err(Error::MetadataJson); },
        };
        match ImageMetadata::from_json(&doc) {
            Some(metadata) => Ok(metadata),
            None => Err(Error::MetadataJson),
        }
    }

    /// Renders the metadata for a log line.
    pub fn to_string(&self) -> (text: String)
        ensures
            text@ == self@.text(),
    {
        let mut kits: Vec<String> = Vec::new();
        let mut i: usize = 0;
        while i < self.kits.len()
            invariant
                i <= self.kits.len(),
                kits@.len() == i,
                forall|j: int| 0 <= j < i ==> #[trigger] kits@[j]@ == self.kits@[j]@.text(),
            decreases self.kits.len() - i,
        {
            kits.push(self.kits[i].to_string());
            i += 1;
        }
        proof {
            assert(texts(kits@) =~= image_views(self.kits@).map_values(
                |kit: ImageView| kit.text(),
            ));
        }
        let mut text = String::from_str("ImageMetadata { name: ");
        text.append(self.name.as_str());
        text.append(", version: ");
        text.append(self.version.as_str());
        text.append(", sdk: ");
        text.append(self.sdk.to_string().as_str());
        text.append(", kit: [");
        text.append(join(&kits, ", ").as_str());
        text.append("] }");
        text
    }
}

/// The label of an image configuration under which a kit keeps its metadata.
pub open spec fn kit_label() -> Seq<char> {
    "dev.bottlerocket.kit.v1"@
}

/// The value of the first label named `key` among `labels[from..]`.
pub open spec fn label_from(labels: Seq<(String, String)>, key: Seq<char>, from: int) -> Option<
    Seq<char>,
>
    decreases labels.len() - from,
{
    if from < 0 || from >= labels.len() {
        None
    } else if labels[from].0@ == key {
        Some(labels[from].1@)
    } else {
        label_from(labels, key, from + 1)
    }
}

/// The kit metadata label among the labels of an image configuration.
pub open spec fn kit_label_of(labels: Seq<(String, String)>) -> Option<Seq<char>> {
    label_from(labels, kit_label(), 0)
}

/// Kit metadata as the label carries it: base64 text, not yet decoded.
#[derive(Debug)]
pub struct EncodedKitMetadata(pub String);

impl View for EncodedKitMetadata {
    type V = Seq<char>;

    open spec fn view(&self) -> Seq<char> {
        self.0@
    }
}

impl Clone for EncodedKitMetadata {
    fn clone(&self) -> (copy: Self)
        ensures
            copy@ == self@,
    {
        EncodedKitMetadata(self.0.clone())
    }
}

impl PartialEq for EncodedKitMetadata {
    fn eq(&self, other: &Self) -> (same: bool) {
        self.0 == other.0
    }
}

impl Eq for EncodedKitMetadata {

}

impl vstd::std_specs::cmp::PartialEqSpecImpl for EncodedKitMetadata {
    open spec fn obeys_eq_spec() -> bool {
        true
    }

    open spec fn eq_spec(&self, other: &Self) -> bool {
        self@ == other@
    }
}

/// The rendering of an encoded label for a log line: the decoded metadata
/// where the label decodes, the label itself with its line breaks escaped
/// where it does not.
pub open spec fn debug_text(label: Seq<char>) -> Seq<char> {
    match decoded_metadata(label) {
        Ok(metadata) => "<ImageMetadata(decoded) ["@ + metadata.text() + "]>"@,
        Err(_) => "<ImageMetadata(encoded) ["@ + replaced_char(label, '\n', "\\n"@) + "]>"@,
    }
}

impl EncodedKitMetadata {
    /// Picks the kit metadata out of the labels of an image configuration.
    /// An image without that label is no kit.
    pub fn try_from_image(labels: &Vec<(String, String)>) -> (found: Result<
        EncodedKitMetadata,
        Error,
    >)
        ensures
            yields(
                found,
                match kit_label_of(labels@) {
                    Some(label) => Ok(label),
                    None => Err(ErrorView::NotAKit),
                },
            ),
    {
        let mut i: usize = 0;
        while i < labels.len()
            invariant
                i <= labels.len(),
                kit_label_of(labels@) == label_from(labels@, kit_label(), i as int),
            decreases labels.len() - i,
        {
            if text_eq(labels[i].0.as_str(), "dev.bottlerocket.kit.v1") {
                return Ok(EncodedKitMetadata(labels[i].1.clone()));
            }
            i += 1;
        }
        Err(Error::NotAKit)
    }

    /// Renders the label for a log line and never fails: the decoded
    /// metadata if the label decodes, else the label as it is, with line
    /// breaks escaped.
    pub fn try_debug_image_metadata(&self) -> (text: String)
        ensures
            text@ == debug_text(self@),
    {
        match self.debug_image_metadata() {
            Some(text) => text,
            None => {
                let mut text = String::from_str("<ImageMetadata(encoded) [");
                text.append(replace_char(self.0.as_str(), '\n', "\\n").as_str());
                text.append("]>");
                text
            },
        }
    }

    /// Renders the decoded metadata, where the label decodes.
    pub fn debug_image_metadata(&self) -> (text: Option<String>)
        ensures
            match text {
                Some(text) => decoded_metadata(self@).is_ok() && text@ == debug_text(self@),
                None => decoded_metadata(self@).is_err(),
            },
    {
        match ImageMetadata::try_from(self) {
            Ok(metadata) => {
                let mut text = String::from_str("<ImageMetadata(decoded) [");
                text.append(metadata.to_string().as_str());
                text.append("]>");
                Some(text)
            },
            Err(_) => None,
        }
    }
}

} // verus!
