//! A pulled image in the local cache, and how its layers are unpacked.
//!
//! The cache holds one directory per manifest digest. A target directory
//! that was unpacked carries a marker file with the digest it was unpacked
//! from; the marker is written after the last layer, so that a target
//! whose marker names a digest holds exactly that image.
use vstd::prelude::*;
use vstd::string::StringExecFns;
use crate::error::{Error, ErrorView};
use crate::image::{LockedImage, LockedImageView};
use crate::json::{json_parse, json_views, parse_json, Json, JsonView};
use crate::manifest::{entry_views, manifest_list, ManifestEntry};
use crate::metadata::yields;
use crate::text::{replace_char, replaced_char, starts_with, texts};

verus! {

/// The digest that a JSON string gives for a layer. Only SHA-256 digests
/// are taken.
pub open spec fn container_digest(doc: JsonView) -> Result<Seq<char>, ErrorView> {
    match doc.text() {
        None => Err(ErrorView::ImageManifest),
        Some(digest) => if "sha256:"@.is_prefix_of(digest) {
            Ok(digest)
        } else {
            Err(ErrorView::InvalidLayerDigest { digest })
        },
    }
}

/// The digest of the layer that a JSON object declares by its member
/// `digest`.
pub open spec fn layer_of(doc: JsonView) -> Result<Seq<char>, ErrorView> {
    match doc.member("digest"@) {
        None => Err(ErrorView::ImageManifest),
        Some(digest) => container_digest(digest),
    }
}

/// The digests of the first `n` layers that the items declare, or the
/// error of the first item among them that declares none.
pub open spec fn layers_upto(items: Seq<JsonView>, n: int) -> Result<Seq<Seq<char>>, ErrorView>
    decreases n,
{
    if n <= 0 {
        Ok(Seq::empty())
    } else {
        match layers_upto(items, n - 1) {
            Err(error) => Err(error),
            Ok(before) => match layer_of(items[n - 1]) {
                Err(error) => Err(error),
                Ok(digest) => Ok(before.push(digest)),
            },
        }
    }
}

/// The digests of the layers of the image manifest that `bytes` hold as
/// JSON, in the order in which they are to be unpacked.
pub open spec fn image_layers(bytes: Seq<u8>) -> Result<Seq<Seq<char>>, ErrorView> {
    match json_parse(bytes) {
        None => Err(ErrorView::ImageManifest),
        Some(doc) => match doc.items_member("layers"@) {
            None => Err(ErrorView::ImageManifest),
            Some(items) => layers_upto(items, items.len() as int),
        },
    }
}

/// The digest of the one manifest that the index of an archive lists
/// first.
pub open spec fn index_manifest(bytes: Seq<u8>) -> Result<Seq<char>, ErrorView> {
    match manifest_list(bytes) {
        None => Err(ErrorView::ImageIndex),
        Some(entries) => if entries.len() == 0 {
            Err(ErrorView::EmptyImage)
        } else {
            Ok(entries[0].digest)
        },
    }
}

/// The directory of the cache that holds the image with this manifest
/// digest: the digest with `-` for each `:`.
pub open spec fn archive_path(cache_dir: Seq<char>, digest: Seq<char>) -> Seq<char> {
    cache_dir + "/"@ + replaced_char(digest, ':', "-"@)
}

/// The file of an archive that holds the blob with this digest.
pub open spec fn blob_path(archive: Seq<char>, digest: Seq<char>) -> Seq<char> {
    archive + "/blobs/"@ + replaced_char(digest, ':', "/"@)
}

/// The blobs of a list of layers.
pub open spec fn blob_paths(archive: Seq<char>, layers: Seq<Seq<char>>) -> Seq<Seq<char>> {
    layers.map_values(|digest: Seq<char>| blob_path(archive, digest))
}

/// The marker file of a target directory.
pub open spec fn marker_path(target: Seq<char>) -> Seq<char> {
    target + "/digest"@
}

/// The index file of an archive.
pub open spec fn index_path(archive: Seq<char>) -> Seq<char> {
    archive + "/index.json"@
}

/// Once a layer fails to declare a digest, the layers after it do not
/// change the error.
pub proof fn lemma_layers_fail_early(items: Seq<JsonView>, n: int, m: int)
    requires
        0 <= n <= m,
        layers_upto(items, n).is_err(),
    ensures
        layers_upto(items, m) == layers_upto(items, n),
    decreases m - n,
{
    if n < m {
        lemma_layers_fail_early(items, n, m - 1);
    }
}

/// The digest of a layer: a SHA-256 digest.
#[derive(Debug)]
pub struct ContainerDigest(String);

impl View for ContainerDigest {
    type V = Seq<char>;

    closed spec fn view(&self) -> Seq<char> {
        self.0@
    }
}

impl ContainerDigest {
    #[verifier::type_invariant]
    spec fn well_formed(self) -> bool {
        "sha256:"@.is_prefix_of(self.0@)
    }

    /// Reads the digest of a layer from a JSON string. A digest that does
    /// not begin with `sha256:` is refused.
    pub fn deserialize(doc: &Json) -> (digest: Result<ContainerDigest, Error>)
        ensures
            yields(digest, container_digest(doc@)),
    {
        let digest = match doc.as_text() {
            Some(digest) => digest,
            None => {
                return Err(Error::ImageManifest);
            },
        };
        if !starts_with(digest.as_str(), "sha256:") {
            return Err(Error::InvalidLayerDigest { digest: digest.clone() });
        }
        Ok(ContainerDigest(digest.clone()))
    }

    /// The digest as text, and that it names its algorithm.
    pub fn to_string(&self) -> (text: String)
        ensures
            text@ == self@,
            "sha256:"@.is_prefix_of(text@),
    {
        proof {
            use_type_invariant(self);
        }
        self.0.clone()
    }

    /// Reads the digests of the layers of an image manifest.
    pub fn layers(bytes: &[u8]) -> (layers: Result<Vec<ContainerDigest>, Error>)
        ensures
            match layers {
                Ok(layers) => image_layers(bytes@) == Ok::<Seq<Seq<char>>, ErrorView>(
                    digest_views(layers@),
                ),
                Err(error) => image_layers(bytes@) == Err::<Seq<Seq<char>>, ErrorView>(error@),
            },
    {
        let doc = match parse_json(bytes) {
            Some(doc) => doc,
            None => {
                return Err(Error::ImageManifest);
            },
        };
        let items = match doc.items_at("layers") {
            Some(items) => items,
            None => {
                return Err(Error::ImageManifest);
            },
        };
        let mut layers: Vec<ContainerDigest> = Vec::new();
        let mut i: usize = 0;
        proof {
            assert(digest_views(layers@) =~= Seq::empty());
        }
        while i < items.len()
            invariant
                i <= items.len(),
                image_layers(bytes@) == layers_upto(json_views(items@), items@.len() as int),
                layers_upto(json_views(items@), i as int) == Ok::<Seq<Seq<char>>, ErrorView>(
                    digest_views(layers@),
                ),
            decreases items.len() - i,
        {
            proof {
                assert(json_views(items@)[i as int] == items@[i as int]@);
            }
            let member = match items[i].get("digest") {
                Some(member) => member,
                None => {
                    proof {
                        lemma_layers_fail_early(json_views(items@), i + 1, items@.len() as int);
                    }
                    return Err(Error::ImageManifest);
                },
            };
            match ContainerDigest::deserialize(member) {
                Ok(digest) => {
                    proof {
                        assert(digest_views(layers@.push(digest)) =~= digest_views(layers@).push(
                            digest@,
                        ));
                    }
                    layers.push(digest);
                },
                Err(error) => {
                    proof {
                        lemma_layers_fail_early(json_views(items@), i + 1, items@.len() as int);
                    }
                    return Err(error);
                },
            }
            i += 1;
        }
        Ok(layers)
    }
}

/// The views of a list of digests.
pub open spec fn digest_views(digests: Seq<ContainerDigest>) -> Seq<Seq<char>> {
    digests.map_values(|digest: ContainerDigest| digest@)
}

/// One image in the cache: the image it was resolved as, the digest of its
/// manifest for one architecture, and the directory of the cache.
#[derive(Debug)]
pub struct OCIArchive {
    pub image: LockedImage,
    pub digest: String,
    pub cache_dir: String,
}

/// What an `OCIArchive` says.
pub struct OCIArchiveView {
    pub image: LockedImageView,
    pub digest: Seq<char>,
    pub cache_dir: Seq<char>,
}

impl OCIArchiveView {
    /// The directory that holds the archive.
    pub open spec fn path(self) -> Seq<char> {
        archive_path(self.cache_dir, self.digest)
    }
}

impl View for OCIArchive {
    type V = OCIArchiveView;

    open spec fn view(&self) -> OCIArchiveView {
        OCIArchiveView { image: self.image@, digest: self.digest@, cache_dir: self.cache_dir@ }
    }
}

/// What is to be pulled, and where to.
#[derive(Debug)]
pub struct PullRequest {
    /// The directory to create and to pull into.
    pub into: String,
    /// The reference of the image, by digest.
    pub uri: String,
}

/// What an unpacking waits for.
pub enum UnpackStageView {
    /// What the marker file of the target holds.
    Marker,
    /// The index of the archive.
    Index,
    /// The manifest that the index names.
    Manifest,
    /// That layer `next` of `blobs` has been unpacked.
    Layers { blobs: Seq<Seq<char>>, next: int },
    /// That the marker has been written.
    Written,
    /// Nothing: it has ended.
    Finished,
}

/// An unpacking under way.
pub struct UnpackView {
    /// The manifest digest of the image that is unpacked.
    pub digest: Seq<char>,
    /// The directory that holds the archive.
    pub archive: Seq<char>,
    /// The directory to unpack into.
    pub target: Seq<char>,
    pub stage: UnpackStageView,
}

/// What came of the last action.
pub enum UnpackEventView {
    /// What the marker file holds, if there is one.
    Marker(Option<Seq<char>>),
    /// The bytes of the file that was read.
    Bytes(Seq<u8>),
    /// The action was carried out.
    Done,
}

/// What an unpacking asks for, or how it ended.
pub enum UnpackActionView {
    /// Read the marker file at `path`, if it is there.
    ReadMarker { path: Seq<char> },
    /// Remove `target` with all it holds, create it anew, and read the
    /// file `index`.
    ResetAndReadIndex { target: Seq<char>, index: Seq<char> },
    /// Read the file `path`.
    ReadBlob { path: Seq<char> },
    /// Unpack the tar file `blob` into `target`, over what is there.
    UnpackLayer { blob: Seq<char>, target: Seq<char> },
    /// Write `digest` to the file `path`.
    WriteMarker { path: Seq<char>, digest: Seq<char> },
    /// The target holds the image; `unpacked` says whether this run put it
    /// there.
    Finished { unpacked: bool },
    Failed(ErrorView),
}

impl UnpackView {
    /// A layer is left to wait for, where layers are waited for.
    pub open spec fn wf(self) -> bool {
        match self.stage {
            UnpackStageView::Layers { blobs, next } => 0 <= next < blobs.len(),
            _ => true,
        }
    }

    /// The same unpacking at another stage.
    pub open spec fn at(self, stage: UnpackStageView) -> UnpackView {
        UnpackView { stage, ..self }
    }

    /// The action that writes the marker.
    pub open spec fn write_marker(self) -> UnpackActionView {
        UnpackActionView::WriteMarker { path: marker_path(self.target), digest: self.digest }
    }

    /// The unpacking after its last action was carried out. A target whose
    /// marker holds the digest is left as it is. Any other target is
    /// emptied and filled layer by layer, in the order of the manifest, and
    /// marked after the last layer.
    pub open spec fn answer(self, event: UnpackEventView) -> (UnpackView, UnpackActionView) {
        match (self.stage, event) {
            (UnpackStageView::Marker, UnpackEventView::Marker(marker)) => {
                if marker == Some(self.digest) {
                    (
                        self.at(UnpackStageView::Finished),
                        UnpackActionView::Finished { unpacked: false },
                    )
                } else {
                    (
                        self.at(UnpackStageView::Index),
                        UnpackActionView::ResetAndReadIndex {
                            target: self.target,
                            index: index_path(self.archive),
                        },
                    )
                }
            },
            (UnpackStageView::Index, UnpackEventView::Bytes(index)) => {
                match index_manifest(index) {
                    Err(error) => (
                        self.at(UnpackStageView::Finished),
                        UnpackActionView::Failed(error),
                    ),
                    Ok(digest) => (
                        self.at(UnpackStageView::Manifest),
                        UnpackActionView::ReadBlob { path: blob_path(self.archive, digest) },
                    ),
                }
            },
            (UnpackStageView::Manifest, UnpackEventView::Bytes(manifest)) => {
                match image_layers(manifest) {
                    Err(error) => (
                        self.at(UnpackStageView::Finished),
                        UnpackActionView::Failed(error),
                    ),
                    Ok(layers) => if layers.len() == 0 {
                        (self.at(UnpackStageView::Written), self.write_marker())
                    } else {
                        let blobs = blob_paths(self.archive, layers);
                        (
                            self.at(UnpackStageView::Layers { blobs, next: 0 }),
                            UnpackActionView::UnpackLayer { blob: blobs[0], target: self.target },
                        )
                    },
                }
            },
            (UnpackStageView::Layers { blobs, next }, UnpackEventView::Done) => {
                if next + 1 < blobs.len() {
                    (
                        self.at(UnpackStageView::Layers { blobs, next: next + 1 }),
                        UnpackActionView::UnpackLayer { blob: blobs[next + 1], target: self.target },
                    )
                } else {
                    (self.at(UnpackStageView::Written), self.write_marker())
                }
            },
            (UnpackStageView::Written, UnpackEventView::Done) => (
                self.at(UnpackStageView::Finished),
                UnpackActionView::Finished { unpacked: true },
            ),
            _ => (
                self.at(UnpackStageView::Finished),
                UnpackActionView::Failed(ErrorView::OutOfTurn),
            ),
        }
    }
}

/// The marker that an unpacking writes holds the digest it unpacked, in the
/// marker file of its target.
pub proof fn marker_holds_own_digest(unpack: UnpackView, event: UnpackEventView)
    ensures
        match unpack.answer(event).1 {
            UnpackActionView::WriteMarker { path, digest } => path == marker_path(unpack.target)
                && digest == unpack.digest,
            _ => true,
        },
{
}

/// Unpacking into a target whose marker holds the digest does nothing: it
/// ends at once, with no layer unpacked and nothing written.
pub proof fn marked_target_is_left_alone(unpack: UnpackView)
    requires
        unpack.stage is Marker,
    ensures
        unpack.answer(UnpackEventView::Marker(Some(unpack.digest))) == (
            unpack.at(UnpackStageView::Finished),
            UnpackActionView::Finished { unpacked: false },
        ),
{
}

/// The marker is written only once every layer is unpacked: no action that
/// writes it leaves a layer to wait for.
pub proof fn marker_is_written_last(unpack: UnpackView, event: UnpackEventView)
    requires
        unpack.wf(),
    ensures
        unpack.answer(event).1 is WriteMarker ==> unpack.answer(event).0.stage is Written && (
        match unpack.stage {
            UnpackStageView::Layers { blobs, next } => next + 1 == blobs.len(),
            UnpackStageView::Manifest => true,
            _ => false,
        }),
{
}


/// What an unpacking waits for.
#[derive(Debug)]
enum UnpackStage {
    Marker,
    Index,
    Manifest,
    Layers { blobs: Vec<String>, next: usize },
    Written,
    Finished,
}

impl View for UnpackStage {
    type V = UnpackStageView;

    closed spec fn view(&self) -> UnpackStageView {
        match *self {
            UnpackStage::Marker => UnpackStageView::Marker,
            UnpackStage::Index => UnpackStageView::Index,
            UnpackStage::Manifest => UnpackStageView::Manifest,
            UnpackStage::Layers { blobs, next } => UnpackStageView::Layers {
                blobs: texts(blobs@),
                next: next as int,
            },
            UnpackStage::Written => UnpackStageView::Written,
            UnpackStage::Finished => UnpackStageView::Finished,
        }
    }
}

/// An unpacking under way. It is made by `OCIArchive::unpack_layers` and
/// moved on by `Unpack::answer`.
#[derive(Debug)]
pub struct Unpack {
    digest: String,
    archive: String,
    target: String,
    stage: UnpackStage,
}

impl View for Unpack {
    type V = UnpackView;

    closed spec fn view(&self) -> UnpackView {
        UnpackView {
            digest: self.digest@,
            archive: self.archive@,
            target: self.target@,
            stage: self.stage@,
        }
    }
}

/// What came of the last action.
#[derive(Debug)]
pub enum UnpackEvent {
    /// What the marker file holds, if there is one.
    Marker(Option<String>),
    /// The bytes of the file that was read.
    Bytes(Vec<u8>),
    /// The action was carried out.
    Done,
}

impl View for UnpackEvent {
    type V = UnpackEventView;

    open spec fn view(&self) -> UnpackEventView {
        match *self {
            UnpackEvent::Marker(marker) => UnpackEventView::Marker(
                match marker {
                    Some(marker) => Some(marker@),
                    None => None,
                },
            ),
            UnpackEvent::Bytes(bytes) => UnpackEventView::Bytes(bytes@),
            UnpackEvent::Done => UnpackEventView::Done,
        }
    }
}

/// What an unpacking asks for, or how it ended.
#[derive(Debug)]
pub enum UnpackAction {
    /// Read the marker file at `path`, if it is there.
    ReadMarker { path: String },
    /// Remove `target` with all it holds, create it anew, and read the
    /// file `index`.
    ResetAndReadIndex { target: String, index: String },
    /// Read the file `path`.
    ReadBlob { path: String },
    /// Unpack the tar file `blob` into `target`, over what is there.
    UnpackLayer { blob: String, target: String },
    /// Write `digest` to the file `path`.
    WriteMarker { path: String, digest: String },
    /// The target holds the image; `unpacked` says whether this run put it
    /// there.
    Finished { unpacked: bool },
    Failed(Error),
}

impl View for UnpackAction {
    type V = UnpackActionView;

    open spec fn view(&self) -> UnpackActionView {
        match *self {
            UnpackAction::ReadMarker { path } => UnpackActionView::ReadMarker { path: path@ },
            UnpackAction::ResetAndReadIndex { target, index } => UnpackActionView::ResetAndReadIndex {
                target: target@,
                index: index@,
            },
            UnpackAction::ReadBlob { path } => UnpackActionView::ReadBlob { path: path@ },
            UnpackAction::UnpackLayer { blob, target } => UnpackActionView::UnpackLayer {
                blob: blob@,
                target: target@,
            },
            UnpackAction::WriteMarker { path, digest } => UnpackActionView::WriteMarker {
                path: path@,
                digest: digest@,
            },
            UnpackAction::Finished { unpacked } => UnpackActionView::Finished { unpacked },
            UnpackAction::Failed(error) => UnpackActionView::Failed(error@),
        }
    }
}

/// The file of the archive at `archive` that holds the blob `digest`.
fn blob_file(archive: &String, digest: &str) -> (path: String)
    ensures
        path@ == blob_path(archive@, digest@),
{
    let mut path = archive.clone();
    path.append("/blobs/");
    path.append(replace_char(digest, ':', "/").as_str());
    path
}

impl Unpack {
    #[verifier::type_invariant]
    spec fn well_formed(self) -> bool {
        self@.wf()
    }

    /// The action that writes the marker.
    fn write_marker(target: &String, digest: &String) -> (action: UnpackAction)
        ensures
            action@ == (UnpackActionView::WriteMarker {
                path: marker_path(target@),
                digest: digest@,
            }),
    {
        let mut path = target.clone();
        path.append("/digest");
        UnpackAction::WriteMarker { path, digest: digest.clone() }
    }

    /// Takes what came of the last action and names the next. An event of
    /// the wrong kind, or one for an unpacking that has ended, ends it with
    /// `Error::OutOfTurn`.
    pub fn answer(self, event: UnpackEvent) -> (out: (Unpack, UnpackAction))
        ensures
            (out.0@, out.1@) == self@.answer(event@),
    {
        proof {
            use_type_invariant(&self);
        }
        let Unpack { digest, archive, target, stage } = self;
        match (stage, event) {
            (UnpackStage::Marker, UnpackEvent::Marker(marker)) => {
                let same = match &marker {
                    Some(marker) => *marker == digest,
                    None => false,
                };
                if same {
                    (
                        Unpack { digest, archive, target, stage: UnpackStage::Finished },
                        UnpackAction::Finished { unpacked: false },
                    )
                } else {
                    let mut index = archive.clone();
                    index.append("/index.json");
                    let action = UnpackAction::ResetAndReadIndex { target: target.clone(), index };
                    (Unpack { digest, archive, target, stage: UnpackStage::Index }, action)
                }
            },
            (UnpackStage::Index, UnpackEvent::Bytes(index)) => {
                let entries = match ManifestEntry::list(index.as_slice()) {
                    Some(entries) => entries,
                    None => {
                        return (
                            Unpack { digest, archive, target, stage: UnpackStage::Finished },
                            UnpackAction::Failed(Error::ImageIndex),
                        );
                    },
                };
                if entries.len() == 0 {
                    return (
                        Unpack { digest, archive, target, stage: UnpackStage::Finished },
                        UnpackAction::Failed(Error::EmptyImage),
                    );
                }
                proof {
                    assert(entry_views(entries@)[0] == entries@[0]@);
                }
                let action = UnpackAction::ReadBlob {
                    path: blob_file(&archive, entries[0].digest.as_str()),
                };
                (Unpack { digest, archive, target, stage: UnpackStage::Manifest }, action)
            },
            (UnpackStage::Manifest, UnpackEvent::Bytes(manifest)) => {
                let layers = match ContainerDigest::layers(manifest.as_slice()) {
                    Ok(layers) => layers,
                    Err(error) => {
                        return (
                            Unpack { digest, archive, target, stage: UnpackStage::Finished },
                            UnpackAction::Failed(error),
                        );
                    },
                };
                if layers.len() == 0 {
                    let action = Unpack::write_marker(&target, &digest);
                    return (Unpack { digest, archive, target, stage: UnpackStage::Written }, action);
                }
                let mut blobs: Vec<String> = Vec::new();
                let mut i: usize = 0;
                while i < layers.len()
                    invariant
                        i <= layers.len(),
                        blobs@.len() == i,
                        forall|j: int|
                            0 <= j < i ==> #[trigger] blobs@[j]@ == blob_path(
                                archive@,
                                layers@[j]@,
                            ),
                    decreases layers.len() - i,
                {
                    blobs.push(blob_file(&archive, layers[i].to_string().as_str()));
                    i += 1;
                }
                proof {
                    assert(texts(blobs@) =~= blob_paths(archive@, digest_views(layers@)));
                }
                let action = UnpackAction::UnpackLayer {
                    blob: blobs[0].clone(),
                    target: target.clone(),
                };
                (
                    Unpack { digest, archive, target, stage: UnpackStage::Layers { blobs, next: 0 } },
                    action,
                )
            },
            (UnpackStage::Layers { blobs, next }, UnpackEvent::Done) => {
                assert(next < blobs.len()) by {
                    assert(texts(blobs@).len() == blobs@.len());
                }
                if next + 1 < blobs.len() {
                    let action = UnpackAction::UnpackLayer {
                        blob: blobs[next + 1].clone(),
                        target: target.clone(),
                    };
                    (
                        Unpack {
                            digest,
                            archive,
                            target,
                            stage: UnpackStage::Layers { blobs, next: next + 1 },
                        },
                        action,
                    )
                } else {
                    let action = Unpack::write_marker(&target, &digest);
                    (Unpack { digest, archive, target, stage: UnpackStage::Written }, action)
                }
            },
            (UnpackStage::Written, UnpackEvent::Done) => (
                Unpack { digest, archive, target, stage: UnpackStage::Finished },
                UnpackAction::Finished { unpacked: true },
            ),
            _ => (
                Unpack { digest, archive, target, stage: UnpackStage::Finished },
                UnpackAction::Failed(Error::OutOfTurn),
            ),
        }
    }
}

impl OCIArchive {
    /// The archive of `image` for the manifest `digest`, kept under
    /// `cache_dir`.
    pub fn new(image: &LockedImage, digest: &str, cache_dir: &str) -> (archive: OCIArchive)
        ensures
            archive@ == (OCIArchiveView {
                image: image@,
                digest: digest@,
                cache_dir: cache_dir@,
            }),
    {
        OCIArchive {
            image: image.clone(),
            digest: String::from_str(digest),
            cache_dir: String::from_str(cache_dir),
        }
    }

    /// The directory of the cache that holds this archive.
    pub fn archive_path(&self) -> (path: String)
        ensures
            path@ == self@.path(),
    {
        let mut path = self.cache_dir.clone();
        path.append("/");
        path.append(replace_char(self.digest.as_str(), ':', "-").as_str());
        path
    }

    /// Decides whether the image must be pulled. `present` says whether
    /// the archive's directory exists: what the cache has under a digest is
    /// that image, so nothing is pulled then. Otherwise the directory is to
    /// be created and the image pulled into it by its digest.
    pub fn pull_image(&self, present: bool) -> (request: Option<PullRequest>)
        ensures
            present <==> request.is_none(),
            match request {
                Some(request) => request.into@ == self@.path() && request.uri@
                    == self@.image.digest_uri(self@.digest),
                None => true,
            },
    {
        if present {
            None
        } else {
            Some(
                PullRequest {
                    into: self.archive_path(),
                    uri: self.image.digest_uri(self.digest.as_str()),
                },
            )
        }
    }

    /// Starts unpacking the archive into `out_dir`: the marker file of the
    /// target is to be read first.
    pub fn unpack_layers(&self, out_dir: &str) -> (out: (Unpack, UnpackAction))
        ensures
            out.0@ == (UnpackView {
                digest: self@.digest,
                archive: self@.path(),
                target: out_dir@,
                stage: UnpackStageView::Marker,
            }),
            out.1@ == (UnpackActionView::ReadMarker { path: marker_path(out_dir@) }),
    {
        let target = String::from_str(out_dir);
        let mut path = target.clone();
        path.append("/digest");
        (
            Unpack {
                digest: self.digest.clone(),
                archive: self.archive_path(),
                target,
                stage: UnpackStage::Marker,
            },
            UnpackAction::ReadMarker { path },
        )
    }
}

} // verus!
