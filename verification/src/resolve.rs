//! Resolution: from the kits a project declares to a lock.
//!
//! The walk is breadth first over an explicit worklist. It needs the
//! registry at three points: the manifest of a kit, the configuration of
//! each platform of a kit, and the manifest of the SDK. At each of them the
//! walk stops and names what it needs; it goes on when it is handed the
//! answer.
use vstd::prelude::*;
use vstd::string::StringExecFns;
use crate::digest::fingerprint;
use crate::error::{Error, ErrorView};
use crate::image::{
    image_views, locked_views, source_text, Image, ImageView, LockedImage, LockedImageView, Vendor,
};
use crate::lock::{one_entry_per_kit, Lock, LockView, SCHEMA_VERSION};
use crate::manifest::{entry_views, manifest_list, ManifestEntry, ManifestEntryView};
use crate::text::texts;
use crate::version::Version;
use crate::metadata::{
    decoded_metadata, kit_label_of, yields, EncodedKitMetadata, ImageMetadata, ImageMetadataView,
};

verus! {

/// What a project declares: its vendors by name, the SDK it asks for, if
/// any, and its kits.
#[derive(Debug)]
pub struct Project {
    pub vendors: Vec<(String, Vendor)>,
    pub sdk: Option<Image>,
    pub kits: Vec<Image>,
}

/// The vendor table as pairs of a vendor's name and its registry.
pub open spec fn vendor_views(vendors: Seq<(String, Vendor)>) -> Seq<(Seq<char>, Seq<char>)> {
    vendors.map_values(|entry: (String, Vendor)| (entry.0@, entry.1.registry@))
}

/// The registry of the first vendor named `name` among `vendors[from..]`.
pub open spec fn registry_from(vendors: Seq<(Seq<char>, Seq<char>)>, name: Seq<char>, from: int)
    -> Option<Seq<char>>
    decreases vendors.len() - from,
{
    if from < 0 || from >= vendors.len() {
        None
    } else if vendors[from].0 == name {
        Some(vendors[from].1)
    } else {
        registry_from(vendors, name, from + 1)
    }
}

/// The version under which the key is known, looking at `known[from..]`.
pub open spec fn version_from(known: Seq<ImageView>, key: (Seq<char>, Seq<char>), from: int)
    -> Option<Seq<char>>
    decreases known.len() - from,
{
    if from < 0 || from >= known.len() {
        None
    } else if known[from].key() == key {
        Some(known[from].version)
    } else {
        version_from(known, key, from + 1)
    }
}

/// The SDK candidates with `sdk` among them.
pub open spec fn with_candidate(sdks: Seq<ImageView>, sdk: ImageView) -> Seq<ImageView> {
    if sdks.contains(sdk) {
        sdks
    } else {
        sdks.push(sdk)
    }
}

/// The reference `registry/name@digest` of one platform of an image.
pub open spec fn platform_uri(registry: Seq<char>, name: Seq<char>, digest: Seq<char>) -> Seq<char> {
    registry + "/"@ + name + "@"@ + digest
}

/// The image that pins `image` of `registry` to `manifest`.
pub open spec fn pinned(image: ImageView, registry: Seq<char>, manifest: Seq<u8>) -> LockedImageView {
    LockedImageView {
        name: image.name,
        version: image.version,
        vendor: image.vendor,
        source: source_text(registry, image.name, image.version),
        digest: fingerprint(manifest),
        manifest,
    }
}

/// The search for the metadata of one kit: which platform is asked about
/// next, and the label that the first platform carried.
pub struct KitSearchView {
    pub registry: Seq<char>,
    pub name: Seq<char>,
    pub digests: Seq<Seq<char>>,
    pub index: int,
    pub canonical: Option<Seq<char>>,
}

/// How a search goes on after an answer.
pub enum KitStepView {
    /// Another platform is to be asked about.
    Next(KitSearchView),
    /// Every platform agreed; this is what they say.
    Found(ImageMetadataView),
    Failed(ErrorView),
}

impl KitSearchView {
    /// A platform is left to ask about, and a label is held exactly from
    /// the second platform on: the label of the first platform, which
    /// decodes.
    pub open spec fn wf(self) -> bool {
        &&& 0 <= self.index < self.digests.len()
        &&& self.canonical.is_some() <==> self.index > 0
        &&& match self.canonical {
            Some(first) => decoded_metadata(first).is_ok(),
            None => true,
        }
    }

    /// The configuration that the search asks for.
    pub open spec fn request(self) -> Seq<char> {
        platform_uri(self.registry, self.name, self.digests[self.index])
    }

    /// The search after the labels of the configuration asked for came
    /// back, `label` being the kit metadata among them. The label is
    /// decoded as it comes. What the first platform says is what the kit
    /// says; a later platform must say the same, whatever the text of its
    /// label.
    pub open spec fn answer(self, label: Option<Seq<char>>) -> KitStepView {
        match label {
            None => KitStepView::Failed(ErrorView::NotAKit),
            Some(label) => match decoded_metadata(label) {
                Err(error) => KitStepView::Failed(error),
                Ok(metadata) => {
                    let first = match self.canonical {
                        Some(first) => first,
                        None => label,
                    };
                    if decoded_metadata(first) != Ok::<ImageMetadataView, ErrorView>(metadata) {
                        KitStepView::Failed(
                            ErrorView::MetadataMismatch { canonical: first, divergent: label },
                        )
                    } else if self.index + 1 < self.digests.len() {
                        KitStepView::Next(
                            KitSearchView { index: self.index + 1, canonical: Some(first), ..self },
                        )
                    } else {
                        KitStepView::Found(metadata)
                    }
                },
            },
        }
    }

    /// The search after a run of answers, while it goes on.
    pub open spec fn answers(self, labels: Seq<Option<Seq<char>>>) -> KitStepView
        decreases labels.len(),
    {
        if labels.len() == 0 {
            KitStepView::Next(self)
        } else {
            match self.answer(labels[0]) {
                KitStepView::Next(next) => next.answers(labels.drop_first()),
                done => done,
            }
        }
    }
}

/// The digests of the entries of a manifest list, in order.
pub open spec fn entry_digests(entries: Seq<ManifestEntryView>) -> Seq<Seq<char>> {
    entries.map_values(|entry: ManifestEntryView| entry.digest)
}

/// The start of the search for the metadata of `image`, whose manifest must
/// be a manifest list with at least one entry.
pub open spec fn kit_search(registry: Seq<char>, image: LockedImageView) -> Result<
    KitSearchView,
    ErrorView,
> {
    match manifest_list(image.manifest) {
        None => Err(ErrorView::ManifestList),
        Some(entries) => if entries.len() == 0 {
            Err(ErrorView::NoMetadata { image: image.text() })
        } else {
            Ok(
                KitSearchView {
                    registry,
                    name: image.name,
                    digests: entry_digests(entries),
                    index: 0,
                    canonical: None,
                },
            )
        },
    }
}

/// What a resolution waits for.
pub enum StageView {
    /// The manifest of the kit `image`.
    KitManifest { image: ImageView, registry: Seq<char> },
    /// The configuration of one platform of `kit`.
    KitConfig { kit: LockedImageView, search: KitSearchView },
    /// The manifest of the SDK.
    SdkManifest { sdk: ImageView, registry: Seq<char> },
    /// Nothing: it has ended, with a lock or with an error.
    Done,
}

/// A resolution under way.
pub struct ResolutionView {
    /// The project's vendors: name and registry.
    pub vendors: Seq<(Seq<char>, Seq<char>)>,
    /// One entry per name and vendor met so far, with the version met.
    pub known: Seq<ImageView>,
    /// The kits pinned so far.
    pub locked: Seq<LockedImageView>,
    /// The distinct SDKs asked for so far.
    pub sdks: Seq<ImageView>,
    /// The round being worked on, and how far it has got.
    pub batch: Seq<ImageView>,
    pub cursor: int,
    /// What the kits of this round depend on: the next round.
    pub queued: Seq<ImageView>,
    pub stage: StageView,
}

/// What a resolution asks for, or how it ended.
pub enum StepView {
    GetManifest { uri: Seq<char> },
    GetConfig { uri: Seq<char> },
    Resolved(LockView),
    Failed(ErrorView),
}

/// What the registry answered.
pub enum ReplyView {
    Manifest(Seq<u8>),
    /// The kit metadata label of a configuration, if it has one.
    Config(Option<Seq<char>>),
}

/// No two entries are for the same name and vendor.
pub open spec fn one_version_per_key(known: Seq<ImageView>) -> bool {
    forall|i: int, j: int|
        0 <= i < known.len() && 0 <= j < known.len() && i != j ==> (#[trigger] known[i]).key() != (
        #[trigger] known[j]).key()
}

impl ResolutionView {
    /// A resolution that has ended: it holds nothing and waits for nothing.
    pub open spec fn ended() -> ResolutionView {
        ResolutionView {
            vendors: Seq::empty(),
            known: Seq::empty(),
            locked: Seq::empty(),
            sdks: Seq::empty(),
            batch: Seq::empty(),
            cursor: 0,
            queued: Seq::empty(),
            stage: StageView::Done,
        }
    }

    /// What is left of the walk, as a number that every step of `scan`
    /// lowers.
    pub open spec fn work_left(self) -> int {
        2 * self.queued.len() + if self.cursor < self.batch.len() {
            self.batch.len() - self.cursor
        } else {
            0
        }
    }

    /// The pinned kits are the known ones, in order, but for a kit that is
    /// being asked about; and no name and vendor is known twice.
    pub open spec fn wf(self) -> bool {
        &&& 0 <= self.cursor <= self.batch.len()
        &&& one_version_per_key(self.known)
        &&& self.sdks.no_duplicates()
        &&& self.locked.len() <= self.known.len()
        &&& forall|i: int| 0 <= i < self.locked.len() ==> (#[trigger] self.locked[i]).image() == self.known[i]
        &&& match self.stage {
            StageView::KitManifest { image, registry } => {
                &&& self.known.len() == self.locked.len() + 1
                &&& self.known.last() == image
            },
            StageView::KitConfig { kit, search } => {
                &&& self.known.len() == self.locked.len() + 1
                &&& self.known.last() == kit.image()
                &&& search.wf()
            },
            StageView::SdkManifest { sdk, registry } => self.known.len() == self.locked.len(),
            StageView::Done => self.known.len() == self.locked.len(),
        }
    }

    /// The end of the walk: exactly one SDK must have been asked for, and
    /// its manifest is what remains to be fetched.
    pub open spec fn finish(self) -> (ResolutionView, StepView) {
        if self.sdks.len() > 1 {
            (Self::ended(), StepView::Failed(ErrorView::MultipleSdks { found: self.sdks }))
        } else if self.sdks.len() == 0 {
            (Self::ended(), StepView::Failed(ErrorView::NoSdk))
        } else {
            let sdk = self.sdks[0];
            match registry_from(self.vendors, sdk.vendor, 0) {
                None => (
                    Self::ended(),
                    StepView::Failed(ErrorView::UnknownVendor { vendor: sdk.vendor }),
                ),
                Some(registry) => (
                    ResolutionView { stage: StageView::SdkManifest { sdk, registry }, ..self },
                    StepView::GetManifest { uri: source_text(registry, sdk.name, sdk.version) },
                ),
            }
        }
    }

    /// The walk from where it stands to the next thing it needs: a kit
    /// that is known in the same version is passed over, one known in
    /// another version ends the walk, and a new one is recorded and its
    /// manifest asked for. When a round is done the next one starts, and
    /// when none is left the walk finishes.
    pub open spec fn scan(self) -> (ResolutionView, StepView)
        decreases self.work_left(),
    {
        if 0 <= self.cursor < self.batch.len() {
            let image = self.batch[self.cursor];
            match version_from(self.known, image.key(), 0) {
                Some(version) => if version != image.version {
                    (
                        Self::ended(),
                        StepView::Failed(
                            ErrorView::VersionConflict {
                                name: image.name,
                                vendor: image.vendor,
                                declared: image.version,
                                known: version,
                            },
                        ),
                    )
                } else {
                    ResolutionView { cursor: self.cursor + 1, ..self }.scan()
                },
                None => match registry_from(self.vendors, image.vendor, 0) {
                    None => (
                        Self::ended(),
                        StepView::Failed(ErrorView::UnknownVendor { vendor: image.vendor }),
                    ),
                    Some(registry) => (
                        ResolutionView {
                            known: self.known.push(image),
                            cursor: self.cursor + 1,
                            stage: StageView::KitManifest { image, registry },
                            ..self
                        },
                        StepView::GetManifest {
                            uri: source_text(registry, image.name, image.version),
                        },
                    ),
                },
            }
        } else if self.queued.len() > 0 {
            ResolutionView { batch: self.queued, cursor: 0, queued: Seq::empty(), ..self }.scan()
        } else {
            self.finish()
        }
    }

    /// The resolution after the registry answered what it asked for.
    pub open spec fn answer(self, reply: ReplyView) -> (ResolutionView, StepView) {
        match (self.stage, reply) {
            (StageView::KitManifest { image, registry }, ReplyView::Manifest(manifest)) => {
                match kit_search(registry, pinned(image, registry, manifest)) {
                    Err(error) => (Self::ended(), StepView::Failed(error)),
                    Ok(search) => (
                        ResolutionView {
                            stage: StageView::KitConfig {
                                kit: pinned(image, registry, manifest),
                                search,
                            },
                            ..self
                        },
                        StepView::GetConfig { uri: search.request() },
                    ),
                }
            },
            (StageView::KitConfig { kit, search }, ReplyView::Config(label)) => {
                match search.answer(label) {
                    KitStepView::Failed(error) => (Self::ended(), StepView::Failed(error)),
                    KitStepView::Next(next) => (
                        ResolutionView {
                            stage: StageView::KitConfig { kit, search: next },
                            ..self
                        },
                        StepView::GetConfig { uri: next.request() },
                    ),
                    KitStepView::Found(metadata) => ResolutionView {
                        locked: self.locked.push(kit),
                        sdks: with_candidate(self.sdks, metadata.sdk),
                        queued: self.queued + metadata.kits,
                        stage: StageView::Done,
                        ..self
                    }.scan(),
                }
            },
            (StageView::SdkManifest { sdk, registry }, ReplyView::Manifest(manifest)) => (
                Self::ended(),
                StepView::Resolved(
                    LockView {
                        schema_version: SCHEMA_VERSION,
                        sdk: pinned(sdk, registry, manifest),
                        kit: self.locked,
                    },
                ),
            ),
            _ => (Self::ended(), StepView::Failed(ErrorView::OutOfTurn)),
        }
    }
}

/// The resolution of a project before its first step: nothing is known,
/// the SDK that the project asks for is the one candidate, and its kits are
/// the first round.
pub open spec fn initial(vendors: Seq<(Seq<char>, Seq<char>)>, sdk: Option<ImageView>, kits: Seq<
    ImageView,
>) -> ResolutionView {
    ResolutionView {
        vendors,
        known: Seq::empty(),
        locked: Seq::empty(),
        sdks: match sdk {
            Some(sdk) => seq![sdk],
            None => Seq::empty(),
        },
        batch: Seq::empty(),
        cursor: 0,
        queued: kits,
        stage: StageView::Done,
    }
}


/// Where no entry from `from` on has the key, the key has no version there;
/// where one has, the first such gives it.
pub proof fn lemma_version_from(known: Seq<ImageView>, key: (Seq<char>, Seq<char>), from: int)
    requires
        0 <= from,
    ensures
        version_from(known, key, from).is_none() ==> forall|i: int|
            from <= i < known.len() ==> (#[trigger] known[i]).key() != key,
        version_from(known, key, from).is_some() ==> exists|i: int|
            from <= i < known.len() && (#[trigger] known[i]).key() == key && known[i].version
                == version_from(known, key, from).unwrap(),
    decreases known.len() - from,
{
    if from < known.len() && known[from].key() != key {
        lemma_version_from(known, key, from + 1);
    }
}

/// Where no name and vendor is known twice, the version under which a key
/// is known is that of the one entry that has the key.
pub proof fn lemma_known_version(known: Seq<ImageView>, at: int)
    requires
        one_version_per_key(known),
        0 <= at < known.len(),
    ensures
        version_from(known, known[at].key(), 0) == Some(known[at].version),
{
    let key = known[at].key();
    lemma_version_from(known, key, 0);
    if version_from(known, key, 0).is_some() {
        let i = choose|i: int|
            0 <= i < known.len() && (#[trigger] known[i]).key() == key && known[i].version
                == version_from(known, key, 0).unwrap();
        assert(i == at);
    } else {
        assert(known[at].key() != key);
    }
}

impl ResolutionView {
    /// The resolution stands between two kits: it is well formed once it is
    /// taken to wait for nothing.
    pub open spec fn at_rest(self) -> bool {
        ResolutionView { stage: StageView::Done, ..self }.wf()
    }

    /// A walk that starts at rest stops well formed.
    pub proof fn scan_keeps_wf(self)
        requires
            self.at_rest(),
        ensures
            self.scan().0.wf(),
            !(self.scan().1 is Resolved),
        decreases self.work_left(),
    {
        if 0 <= self.cursor < self.batch.len() {
            let image = self.batch[self.cursor];
            lemma_version_from(self.known, image.key(), 0);
            match version_from(self.known, image.key(), 0) {
                Some(version) => {
                    if version == image.version {
                        ResolutionView { cursor: self.cursor + 1, ..self }.scan_keeps_wf();
                    }
                },
                None => {},
            }
        } else if self.queued.len() > 0 {
            ResolutionView {
                batch: self.queued,
                cursor: 0,
                queued: Seq::empty(),
                ..self
            }.scan_keeps_wf();
        }
    }

    /// Every answer leaves a well-formed resolution well formed, and a lock
    /// that comes out of one names no kit twice.
    pub proof fn answer_keeps_wf(self, reply: ReplyView)
        requires
            self.wf(),
        ensures
            self.answer(reply).0.wf(),
            match self.answer(reply).1 {
                StepView::Resolved(lock) => lock.schema_version == SCHEMA_VERSION
                    && one_entry_per_kit(lock.kit),
                _ => true,
            },
    {
        match (self.stage, reply) {
            (StageView::SdkManifest { sdk, registry }, ReplyView::Manifest(manifest)) => {
                assert forall|i: int, j: int|
                    0 <= i < self.locked.len() && 0 <= j < self.locked.len() && i != j implies (
                #[trigger] self.locked[i]).key() != (#[trigger] self.locked[j]).key() by {
                    assert(self.locked[i].image() == self.known[i]);
                    assert(self.locked[j].image() == self.known[j]);
                    assert(self.known[i].key() != self.known[j].key());
                }
            },
            (StageView::KitConfig { kit, search }, ReplyView::Config(label)) => {
                match search.answer(label) {
                    KitStepView::Found(metadata) => {
                        let next = ResolutionView {
                            locked: self.locked.push(kit),
                            sdks: with_candidate(self.sdks, metadata.sdk),
                            queued: self.queued + metadata.kits,
                            stage: StageView::Done,
                            ..self
                        };
                        next.scan_keeps_wf();
                    },
                    _ => {},
                }
            },
            _ => {},
        }
    }
}

/// The candidates after one more SDK was asked for hold that SDK and every
/// one they held before; a second, different SDK makes them more than one.
pub proof fn every_sdk_asked_for_is_a_candidate(sdks: Seq<ImageView>, sdk: ImageView)
    ensures
        with_candidate(sdks, sdk).contains(sdk),
        forall|other: ImageView| sdks.contains(other) ==> with_candidate(sdks, sdk).contains(other),
        sdks.len() > 0 && !sdks.contains(sdk) ==> with_candidate(sdks, sdk).len() > 1,
{
    let after = with_candidate(sdks, sdk);
    if !sdks.contains(sdk) {
        assert(after[sdks.len() as int] == sdk);
        assert forall|other: ImageView| sdks.contains(other) implies after.contains(other) by {
            let i = choose|i: int| 0 <= i < sdks.len() && sdks[i] == other;
            assert(after[i] == other);
        }
    }
}

impl ResolutionView {
    /// The same resolution with the kit it stands at left behind.
    pub open spec fn passing_over(self) -> ResolutionView {
        ResolutionView { cursor: self.cursor + 1, ..self }
    }

    /// A walk that has no kit left and has been asked for more than one
    /// SDK fails, and its error names every SDK that was asked for.
    pub proof fn several_sdks_fail(self)
        requires
            self.cursor >= self.batch.len(),
            self.queued.len() == 0,
            self.sdks.len() > 1,
        ensures
            self.scan() == (
                Self::ended(),
                StepView::Failed(ErrorView::MultipleSdks { found: self.sdks }),
            ),
    {
    }

    /// A walk that comes to a kit which is known in another version fails,
    /// and its error names the kit and both versions.
    pub proof fn second_version_fails(self, at: int)
        requires
            0 <= self.cursor < self.batch.len(),
            one_version_per_key(self.known),
            0 <= at < self.known.len(),
            self.known[at].key() == self.batch[self.cursor].key(),
            self.known[at].version != self.batch[self.cursor].version,
        ensures
            self.scan() == (
                Self::ended(),
                StepView::Failed(
                    ErrorView::VersionConflict {
                        name: self.batch[self.cursor].name,
                        vendor: self.batch[self.cursor].vendor,
                        declared: self.batch[self.cursor].version,
                        known: self.known[at].version,
                    },
                ),
            ),
    {
        lemma_known_version(self.known, at);
    }

    /// A walk asks for the manifest of a kit only where the kit's name and
    /// vendor were not known, and it records them as it asks: no kit is
    /// asked about twice.
    pub proof fn kit_is_asked_about_once(self)
        ensures
            match self.scan().0.stage {
                StageView::KitManifest { image, registry } => {
                    &&& self.scan().0.known == self.known.push(image)
                    &&& forall|i: int|
                        0 <= i < self.known.len() ==> (#[trigger] self.known[i]).key()
                            != image.key()
                },
                _ => true,
            },
        decreases self.work_left(),
    {
        if 0 <= self.cursor < self.batch.len() {
            let image = self.batch[self.cursor];
            lemma_version_from(self.known, image.key(), 0);
            match version_from(self.known, image.key(), 0) {
                Some(version) => {
                    if version == image.version {
                        self.passing_over().kit_is_asked_about_once();
                    }
                },
                None => {},
            }
        } else if self.queued.len() > 0 {
            ResolutionView {
                batch: self.queued,
                cursor: 0,
                queued: Seq::empty(),
                ..self
            }.kit_is_asked_about_once();
        }
    }

    /// A walk that comes to a kit which is known in the same version
    /// passes over it: the kit is not asked about again.
    pub proof fn known_kit_is_passed_over(self, at: int)
        requires
            0 <= self.cursor < self.batch.len(),
            one_version_per_key(self.known),
            0 <= at < self.known.len(),
            self.known[at] == self.batch[self.cursor],
        ensures
            self.scan() == self.passing_over().scan(),
    {
        lemma_known_version(self.known, at);
    }
}

impl KitSearchView {
    /// Whether every platform met so far said `metadata`.
    pub open spec fn has_met_only(self, metadata: ImageMetadataView) -> bool {
        match self.canonical {
            Some(first) => decoded_metadata(first) == Ok::<ImageMetadataView, ErrorView>(metadata),
            None => true,
        }
    }

    /// Where every platform that is left carries a label that decodes to
    /// the same metadata as those before it, the search ends with that
    /// metadata, whether or not the labels are the same text.
    pub proof fn agreeing_platforms_give_their_metadata(
        self,
        labels: Seq<Option<Seq<char>>>,
        metadata: ImageMetadataView,
    )
        requires
            self.wf(),
            self.has_met_only(metadata),
            labels.len() == self.digests.len() - self.index,
            forall|i: int|
                0 <= i < labels.len() ==> (#[trigger] labels[i]).is_some() && decoded_metadata(
                    labels[i].unwrap(),
                ) == Ok::<ImageMetadataView, ErrorView>(metadata),
        ensures
            self.answers(labels) == KitStepView::Found(metadata),
        decreases labels.len(),
    {
        assert(labels[0].is_some());
        match self.answer(labels[0]) {
            KitStepView::Next(next) => {
                let rest = labels.drop_first();
                assert forall|i: int| 0 <= i < rest.len() implies (#[trigger] rest[i]).is_some()
                    && decoded_metadata(rest[i].unwrap()) == Ok::<ImageMetadataView, ErrorView>(
                    metadata,
                ) by {
                    assert(rest[i] == labels[i + 1]);
                }
                next.agreeing_platforms_give_their_metadata(rest, metadata);
            },
            _ => {},
        }
    }

    /// Where a platform carries a label that decodes to other metadata
    /// than the platforms before it, the search ends there with a mismatch
    /// that names the first platform's label and this one, whatever the
    /// platforms after it carry.
    pub proof fn different_metadata_is_a_mismatch(
        self,
        labels: Seq<Option<Seq<char>>>,
        at: int,
        first: Seq<char>,
        other: Seq<char>,
    )
        requires
            self.wf(),
            0 <= at < labels.len(),
            at < self.digests.len() - self.index,
            match self.canonical {
                Some(met) => met == first,
                None => at > 0 && labels[0] == Some(first),
            },
            decoded_metadata(first).is_ok(),
            forall|i: int|
                0 <= i < at ==> (#[trigger] labels[i]).is_some() && decoded_metadata(
                    labels[i].unwrap(),
                ) == decoded_metadata(first),
            labels[at] == Some(other),
            decoded_metadata(other).is_ok(),
            decoded_metadata(other) != decoded_metadata(first),
        ensures
            self.answers(labels) == KitStepView::Failed(
                ErrorView::MetadataMismatch { canonical: first, divergent: other },
            ),
        decreases at,
    {
        if at > 0 {
            assert(labels[0].is_some());
            match self.answer(labels[0]) {
                KitStepView::Next(next) => {
                    let rest = labels.drop_first();
                    assert forall|i: int| 0 <= i < at - 1 implies (#[trigger] rest[i]).is_some()
                        && decoded_metadata(rest[i].unwrap()) == decoded_metadata(first) by {
                        assert(rest[i] == labels[i + 1]);
                    }
                    assert(rest[at - 1] == labels[at]);
                    next.different_metadata_is_a_mismatch(rest, at - 1, first, other);
                },
                _ => {},
            }
        }
    }

    /// A platform whose label does not decode ends the search with the
    /// error of the decoding.
    pub proof fn undecodable_label_ends_the_search(self, label: Seq<char>)
        requires
            decoded_metadata(label).is_err(),
        ensures
            self.answer(Some(label)) == KitStepView::Failed(decoded_metadata(label)->Err_0),
    {
    }
}

/// The search for the metadata of one kit, one platform at a time.
#[derive(Debug)]
pub struct KitSearch {
    registry: String,
    name: String,
    digests: Vec<String>,
    index: usize,
    canonical: Option<(EncodedKitMetadata, ImageMetadata)>,
}

impl View for KitSearch {
    type V = KitSearchView;

    closed spec fn view(&self) -> KitSearchView {
        KitSearchView {
            registry: self.registry@,
            name: self.name@,
            digests: texts(self.digests@),
            index: self.index as int,
            canonical: match self.canonical {
                Some(first) => Some(first.0@),
                None => None,
            },
        }
    }
}

/// How a search goes on after an answer.
#[derive(Debug)]
pub enum KitStep {
    /// Another platform is to be asked about.
    Next(KitSearch),
    /// Every platform agreed; this is what they say.
    Found(ImageMetadata),
    Failed(Error),
}

impl View for KitStep {
    type V = KitStepView;

    open spec fn view(&self) -> KitStepView {
        match *self {
            KitStep::Next(search) => KitStepView::Next(search@),
            KitStep::Found(metadata) => KitStepView::Found(metadata@),
            KitStep::Failed(error) => KitStepView::Failed(error@),
        }
    }
}

impl KitSearch {
    #[verifier::type_invariant]
    spec fn well_formed(self) -> bool {
        &&& self@.wf()
        &&& match self.canonical {
            Some(first) => decoded_metadata(first.0@) == Ok::<ImageMetadataView, ErrorView>(
                first.1@,
            ),
            None => true,
        }
    }

    /// The configuration to ask the registry for next.
    pub fn request(&self) -> (uri: String)
        ensures
            uri@ == self@.request(),
    {
        proof {
            use_type_invariant(self);
        }
        let mut uri = self.registry.clone();
        uri.append("/");
        uri.append(self.name.as_str());
        uri.append("@");
        uri.append(self.digests[self.index].as_str());
        uri
    }

    /// Takes the labels of the configuration that was asked for. A
    /// configuration without the kit label ends the search, and so does a
    /// label that does not decode, and one that decodes to other metadata
    /// than the first platform's; after the last platform the search ends
    /// with what the first platform said.
    pub fn answer(self, labels: &Vec<(String, String)>) -> (step: KitStep)
        ensures
            step@ == self@.answer(kit_label_of(labels@)),
    {
        proof {
            use_type_invariant(&self);
        }
        let label = match EncodedKitMetadata::try_from_image(labels) {
            Ok(label) => label,
            Err(error) => {
                return KitStep::Failed(error);
            },
        };
        let metadata = match ImageMetadata::try_from(&label) {
            Ok(metadata) => metadata,
            Err(error) => {
                return KitStep::Failed(error);
            },
        };
        let KitSearch { registry, name, digests, index, canonical } = self;
        assert(index < digests.len()) by {
            assert(texts(digests@).len() == digests@.len());
        }
        let (first, said) = match canonical {
            Some((first, said)) => {
                if metadata != said {
                    return KitStep::Failed(
                        Error::MetadataMismatch { canonical: first.0, divergent: label.0 },
                    );
                }
                (first, said)
            },
            None => (label, metadata),
        };
        if index + 1 < digests.len() {
            return KitStep::Next(
                KitSearch { registry, name, digests, index: index + 1, canonical: Some((first, said)) },
            );
        }
        KitStep::Found(said)
    }
}

impl Lock {
    /// Starts the search for the metadata of the kit `image`, published by
    /// `vendor`: reads its manifest as a manifest list, which must name at
    /// least one platform.
    pub fn find_kit(vendor: &Vendor, image: &LockedImage) -> (search: Result<KitSearch, Error>)
        ensures
            yields(search, kit_search(vendor.registry@, image@)),
    {
        let entries = match ManifestEntry::list(image.manifest.as_slice()) {
            Some(entries) => entries,
            None => {
                return Err(Error::ManifestList);
            },
        };
        if entries.len() == 0 {
            return Err(Error::NoMetadata { image: image.to_string() });
        }
        let mut digests: Vec<String> = Vec::new();
        let mut i: usize = 0;
        while i < entries.len()
            invariant
                i <= entries.len(),
                digests@.len() == i,
                forall|j: int| 0 <= j < i ==> #[trigger] digests@[j]@ == entries@[j]@.digest,
            decreases entries.len() - i,
        {
            digests.push(entries[i].digest.clone());
            i += 1;
        }
        proof {
            assert(texts(digests@) =~= entry_digests(entry_views(entries@)));
        }
        Ok(
            KitSearch {
                registry: vendor.registry.clone(),
                name: image.name.clone(),
                digests,
                index: 0,
                canonical: None,
            },
        )
    }
}


/// What a resolution waits for.
#[derive(Debug)]
enum Stage {
    KitManifest { image: Image, vendor: Vendor },
    KitConfig { kit: LockedImage, search: KitSearch },
    SdkManifest { sdk: Image, vendor: Vendor },
    Done,
}

impl View for Stage {
    type V = StageView;

    closed spec fn view(&self) -> StageView {
        match *self {
            Stage::KitManifest { image, vendor } => StageView::KitManifest {
                image: image@,
                registry: vendor.registry@,
            },
            Stage::KitConfig { kit, search } => StageView::KitConfig { kit: kit@, search: search@ },
            Stage::SdkManifest { sdk, vendor } => StageView::SdkManifest {
                sdk: sdk@,
                registry: vendor.registry@,
            },
            Stage::Done => StageView::Done,
        }
    }
}

/// A resolution under way. It is made by `Lock::resolve` and moved on by
/// `Resolution::answer`.
#[derive(Debug)]
pub struct Resolution {
    vendors: Vec<(String, Vendor)>,
    known: Vec<Image>,
    locked: Vec<LockedImage>,
    sdks: Vec<Image>,
    batch: Vec<Image>,
    cursor: usize,
    queued: Vec<Image>,
    stage: Stage,
}

impl View for Resolution {
    type V = ResolutionView;

    closed spec fn view(&self) -> ResolutionView {
        ResolutionView {
            vendors: vendor_views(self.vendors@),
            known: image_views(self.known@),
            locked: locked_views(self.locked@),
            sdks: image_views(self.sdks@),
            batch: image_views(self.batch@),
            cursor: self.cursor as int,
            queued: image_views(self.queued@),
            stage: self.stage@,
        }
    }
}

/// What a resolution asks for, or how it ended.
#[derive(Debug)]
pub enum Step {
    /// The manifest stored under `uri` is needed.
    GetManifest { uri: String },
    /// The labels of the image configuration stored under `uri` are needed.
    GetConfig { uri: String },
    /// The project is resolved.
    Resolved(Lock),
    /// The project cannot be resolved.
    Failed(Error),
}

impl View for Step {
    type V = StepView;

    open spec fn view(&self) -> StepView {
        match *self {
            Step::GetManifest { uri } => StepView::GetManifest { uri: uri@ },
            Step::GetConfig { uri } => StepView::GetConfig { uri: uri@ },
            Step::Resolved(lock) => StepView::Resolved(lock@),
            Step::Failed(error) => StepView::Failed(error@),
        }
    }
}

/// What the registry answered.
#[derive(Debug)]
pub enum Reply {
    /// The bytes of the manifest asked for.
    Manifest(Vec<u8>),
    /// The labels of the image configuration asked for, name and value.
    Config(Vec<(String, String)>),
}

impl View for Reply {
    type V = ReplyView;

    open spec fn view(&self) -> ReplyView {
        match *self {
            Reply::Manifest(manifest) => ReplyView::Manifest(manifest@),
            Reply::Config(labels) => ReplyView::Config(kit_label_of(labels@)),
        }
    }
}

/// Finds the vendor named `name`.
fn find_vendor<'a>(vendors: &'a Vec<(String, Vendor)>, name: &String) -> (found: Option<&'a Vendor>)
    ensures
        match found {
            Some(vendor) => registry_from(vendor_views(vendors@), name@, 0) == Some(
                vendor.registry@,
            ),
            None => registry_from(vendor_views(vendors@), name@, 0).is_none(),
        },
{
    let mut i: usize = 0;
    while i < vendors.len()
        invariant
            i <= vendors.len(),
            registry_from(vendor_views(vendors@), name@, 0) == registry_from(
                vendor_views(vendors@),
                name@,
                i as int,
            ),
        decreases vendors.len() - i,
    {
        proof {
            assert(vendor_views(vendors@)[i as int] == (vendors@[i as int].0@, vendors@[i as int].1.registry@));
        }
        if vendors[i].0 == *name {
            return Some(&vendors[i].1);
        }
        i += 1;
    }
    None
}

/// Finds the version under which the name and vendor of `image` are known.
fn find_known<'a>(known: &'a Vec<Image>, image: &Image) -> (found: Option<&'a Version>)
    ensures
        match found {
            Some(version) => version_from(image_views(known@), image@.key(), 0) == Some(version@),
            None => version_from(image_views(known@), image@.key(), 0).is_none(),
        },
{
    let mut i: usize = 0;
    while i < known.len()
        invariant
            i <= known.len(),
            version_from(image_views(known@), image@.key(), 0) == version_from(
                image_views(known@),
                image@.key(),
                i as int,
            ),
        decreases known.len() - i,
    {
        proof {
            assert(image_views(known@)[i as int] == known@[i as int]@);
        }
        if known[i].same_key(image) {
            return Some(&known[i].version);
        }
        i += 1;
    }
    None
}

/// Adds `sdk` to the candidates unless it is among them.
fn add_candidate(sdks: &mut Vec<Image>, sdk: Image)
    ensures
        image_views(final(sdks)@) == with_candidate(image_views(old(sdks)@), sdk@),
{
    let mut i: usize = 0;
    while i < sdks.len()
        invariant
            i <= sdks.len(),
            *sdks == *old(sdks),
            forall|j: int| 0 <= j < i ==> #[trigger] image_views(sdks@)[j] != sdk@,
        decreases sdks.len() - i,
    {
        proof {
            assert(image_views(sdks@)[i as int] == sdks@[i as int]@);
        }
        if sdks[i] == sdk {
            return ;
        }
        i += 1;
    }
    proof {
        assert(image_views(sdks@.push(sdk)) =~= image_views(sdks@).push(sdk@));
    }
    sdks.push(sdk);
}

/// The resolution that holds these pieces and waits for nothing.
spec fn resting(
    vendors: Vec<(String, Vendor)>,
    known: Vec<Image>,
    locked: Vec<LockedImage>,
    sdks: Vec<Image>,
    batch: Vec<Image>,
    cursor: usize,
    queued: Vec<Image>,
) -> ResolutionView {
    ResolutionView {
        vendors: vendor_views(vendors@),
        known: image_views(known@),
        locked: locked_views(locked@),
        sdks: image_views(sdks@),
        batch: image_views(batch@),
        cursor: cursor as int,
        queued: image_views(queued@),
        stage: StageView::Done,
    }
}

impl Resolution {
    #[verifier::type_invariant]
    spec fn well_formed(self) -> bool {
        self@.wf()
    }

    /// A resolution that has ended.
    fn ended() -> (state: Resolution)
        ensures
            state@ == ResolutionView::ended(),
    {
        let state = Resolution {
            vendors: Vec::new(),
            known: Vec::new(),
            locked: Vec::new(),
            sdks: Vec::new(),
            batch: Vec::new(),
            cursor: 0,
            queued: Vec::new(),
            stage: Stage::Done,
        };
        proof {
            assert(state@.vendors =~= Seq::empty());
            assert(state@.known =~= Seq::empty());
            assert(state@.locked =~= Seq::empty());
            assert(state@.sdks =~= Seq::empty());
            assert(state@.batch =~= Seq::empty());
            assert(state@.queued =~= Seq::empty());
        }
        state
    }

    /// Walks on from between two kits to the next thing that the registry
    /// must answer, or to the end.
    fn scan(
        vendors: Vec<(String, Vendor)>,
        known: Vec<Image>,
        locked: Vec<LockedImage>,
        sdks: Vec<Image>,
        batch: Vec<Image>,
        cursor: usize,
        queued: Vec<Image>,
    ) -> (out: (Resolution, Step))
        requires
            resting(vendors, known, locked, sdks, batch, cursor, queued).at_rest(),
        ensures
            (out.0@, out.1@) == resting(vendors, known, locked, sdks, batch, cursor, queued).scan(),
    {
        let ghost start = resting(vendors, known, locked, sdks, batch, cursor, queued);
        let mut seen = known;
        let mut round = batch;
        let mut at = cursor;
        let mut next_round = queued;
        proof {
            start.scan_keeps_wf();
        }
        loop
            invariant
                start == resting(vendors, known, locked, sdks, batch, cursor, queued),
                resting(vendors, seen, locked, sdks, round, at, next_round).at_rest(),
                resting(vendors, seen, locked, sdks, round, at, next_round).scan() == start.scan(),
                start.scan().0.wf(),
            decreases resting(vendors, seen, locked, sdks, round, at, next_round).work_left(),
        {
            let ghost now = resting(vendors, seen, locked, sdks, round, at, next_round);
            if at < round.len() {
                let image = &round[at];
                proof {
                    assert(now.batch[at as int] == image@);
                }
                match find_known(&seen, image) {
                    Some(version) => {
                        if *version != image.version {
                            let error = Error::VersionConflict {
                                name: image.name.clone(),
                                vendor: image.vendor.clone(),
                                declared: image.version.clone(),
                                known: version.clone(),
                            };
                            return (Resolution::ended(), Step::Failed(error));
                        }
                        at += 1;
                    },
                    None => {
                        let vendor = match find_vendor(&vendors, &image.vendor) {
                            Some(vendor) => vendor.clone(),
                            None => {
                                let error = Error::UnknownVendor { vendor: image.vendor.clone() };
                                return (Resolution::ended(), Step::Failed(error));
                            },
                        };
                        let uri = LockedImage::source_of(&vendor, image);
                        let entry = image.clone();
                        let image = image.clone();
                        proof {
                            assert(image_views(seen@.push(entry)) =~= image_views(seen@).push(
                                entry@,
                            ));
                        }
                        seen.push(entry);
                        let state = Resolution {
                            vendors,
                            known: seen,
                            locked,
                            sdks,
                            batch: round,
                            cursor: at + 1,
                            queued: next_round,
                            stage: Stage::KitManifest { image, vendor },
                        };
                        return (state, Step::GetManifest { uri });
                    },
                }
            } else if next_round.len() > 0 {
                round = next_round;
                next_round = Vec::new();
                at = 0;
                proof {
                    assert(image_views(next_round@) =~= Seq::empty());
                }
            } else {
                proof {
                    assert(now.scan() == now.finish());
                }
                if sdks.len() > 1 {
                    return (Resolution::ended(), Step::Failed(Error::MultipleSdks { found: sdks }));
                }
                if sdks.len() == 0 {
                    return (Resolution::ended(), Step::Failed(Error::NoSdk));
                }
                let sdk = sdks[0].clone();
                proof {
                    assert(now.sdks[0] == sdk@);
                }
                let vendor = match find_vendor(&vendors, &sdk.vendor) {
                    Some(vendor) => vendor.clone(),
                    None => {
                        let error = Error::UnknownVendor { vendor: sdk.vendor.clone() };
                        return (Resolution::ended(), Step::Failed(error));
                    },
                };
                let uri = LockedImage::source_of(&vendor, &sdk);
                let state = Resolution {
                    vendors,
                    known: seen,
                    locked,
                    sdks,
                    batch: round,
                    cursor: at,
                    queued: next_round,
                    stage: Stage::SdkManifest { sdk, vendor },
                };
                return (state, Step::GetManifest { uri });
            }
        }
    }

    /// Takes the registry's answer to what the resolution asked for last
    /// and walks on. An answer of the wrong kind, or one to a resolution
    /// that has ended, ends it with `Error::OutOfTurn`.
    pub fn answer(self, reply: Reply) -> (out: (Resolution, Step))
        ensures
            (out.0@, out.1@) == self@.answer(reply@),
            match out.1 {
                Step::Resolved(lock) => lock@.schema_version == SCHEMA_VERSION && one_entry_per_kit(
                    lock@.kit,
                ),
                _ => true,
            },
    {
        proof {
            use_type_invariant(&self);
            self@.answer_keeps_wf(reply@);
        }
        let Resolution { vendors, known, mut locked, mut sdks, batch, cursor, mut queued, stage } = self;
        match (stage, reply) {
            (Stage::KitManifest { image, vendor }, Reply::Manifest(manifest)) => {
                let kit = LockedImage::new(&vendor, &image, manifest);
                match Lock::find_kit(&vendor, &kit) {
                    Err(error) => (Resolution::ended(), Step::Failed(error)),
                    Ok(search) => {
                        let uri = search.request();
                        let state = Resolution {
                            vendors,
                            known,
                            locked,
                            sdks,
                            batch,
                            cursor,
                            queued,
                            stage: Stage::KitConfig { kit, search },
                        };
                        (state, Step::GetConfig { uri })
                    },
                }
            },
            (Stage::KitConfig { kit, search }, Reply::Config(labels)) => {
                match search.answer(&labels) {
                    KitStep::Failed(error) => (Resolution::ended(), Step::Failed(error)),
                    KitStep::Next(search) => {
                        let uri = search.request();
                        let state = Resolution {
                            vendors,
                            known,
                            locked,
                            sdks,
                            batch,
                            cursor,
                            queued,
                            stage: Stage::KitConfig { kit, search },
                        };
                        (state, Step::GetConfig { uri })
                    },
                    KitStep::Found(metadata) => {
                        let ImageMetadata { name: _, version: _, sdk, mut kits } = metadata;
                        proof {
                            assert(locked_views(locked@.push(kit)) =~= locked_views(locked@).push(
                                kit@,
                            ));
                            assert(image_views(queued@ + kits@) =~= image_views(queued@)
                                + image_views(kits@));
                        }
                        locked.push(kit);
                        add_candidate(&mut sdks, sdk);
                        queued.append(&mut kits);
                        Resolution::scan(vendors, known, locked, sdks, batch, cursor, queued)
                    },
                }
            },
            (Stage::SdkManifest { sdk, vendor }, Reply::Manifest(manifest)) => {
                let sdk = LockedImage::new(&vendor, &sdk, manifest);
                let lock = Lock { schema_version: SCHEMA_VERSION, sdk, kit: locked };
                (Resolution::ended(), Step::Resolved(lock))
            },
            _ => (Resolution::ended(), Step::Failed(Error::OutOfTurn)),
        }
    }
}

impl Project {
    /// What the project declares, as the walk sees it.
    pub open spec fn start(self) -> ResolutionView {
        initial(
            vendor_views(self.vendors@),
            match self.sdk {
                Some(sdk) => Some(sdk@),
                None => None,
            },
            image_views(self.kits@),
        )
    }
}

/// Copies a list of images.
fn clone_images(images: &Vec<Image>) -> (copy: Vec<Image>)
    ensures
        image_views(copy@) == image_views(images@),
{
    let mut copy: Vec<Image> = Vec::new();
    let mut i: usize = 0;
    while i < images.len()
        invariant
            i <= images.len(),
            copy@.len() == i,
            forall|j: int| 0 <= j < i ==> #[trigger] copy@[j]@ == images@[j]@,
        decreases images.len() - i,
    {
        copy.push(images[i].clone());
        i += 1;
    }
    proof {
        assert(image_views(copy@) =~= image_views(images@));
    }
    copy
}

/// Copies a vendor table.
fn clone_vendors(vendors: &Vec<(String, Vendor)>) -> (copy: Vec<(String, Vendor)>)
    ensures
        vendor_views(copy@) == vendor_views(vendors@),
{
    let mut copy: Vec<(String, Vendor)> = Vec::new();
    let mut i: usize = 0;
    while i < vendors.len()
        invariant
            i <= vendors.len(),
            copy@.len() == i,
            forall|j: int|
                0 <= j < i ==> (#[trigger] copy@[j]).0@ == vendors@[j].0@ && copy@[j].1.registry@
                    == vendors@[j].1.registry@,
        decreases vendors.len() - i,
    {
        copy.push((vendors[i].0.clone(), vendors[i].1.clone()));
        i += 1;
    }
    proof {
        assert(vendor_views(copy@) =~= vendor_views(vendors@));
    }
    copy
}

impl Lock {
    /// Starts the resolution of `project` and walks to the first thing
    /// that the registry must answer. The state that comes back is to be
    /// handed each answer in turn, through `Resolution::answer`, until a
    /// step says `Resolved` or `Failed`.
    pub fn resolve(project: &Project) -> (out: (Resolution, Step))
        ensures
            (out.0@, out.1@) == project.start().scan(),
    {
        let mut sdks: Vec<Image> = Vec::new();
        match &project.sdk {
            Some(sdk) => {
                sdks.push(sdk.clone());
            },
            None => {},
        }
        let vendors = clone_vendors(&project.vendors);
        let queued = clone_images(&project.kits);
        let known: Vec<Image> = Vec::new();
        let locked: Vec<LockedImage> = Vec::new();
        let batch: Vec<Image> = Vec::new();
        proof {
            let rest = resting(vendors, known, locked, sdks, batch, 0, queued);
            assert(rest.known =~= Seq::empty());
            assert(rest.locked =~= Seq::empty());
            assert(rest.batch =~= Seq::empty());
            assert(rest.sdks =~= project.start().sdks);
            assert(rest == project.start());
        }
        Resolution::scan(vendors, known, locked, sdks, batch, 0, queued)
    }
}

} // verus!
