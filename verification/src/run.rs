//! Whole runs of a resolution against what a registry holds, and why they
//! end.
//!
//! A registry can describe a chain of kits without end, each depending on
//! a new one, and a walk over it never ends. Where the names and vendors of
//! the kits that can be met are finitely many, every walk ends: each kit is
//! asked about once, each of its platforms once, and the SDK once.
use vstd::prelude::*;
use vstd::set_lib::lemma_len_subset;
use crate::image::ImageView;
use crate::metadata::decoded_metadata;
use crate::resolve::{
    initial, one_version_per_key, version_from, with_candidate, KitStepView, ReplyView,
    ResolutionView, StageView, StepView,
};

verus! {

/// What a registry holds: a manifest under every reference, and under
/// every reference of a platform the kit label of its configuration, if it
/// has one.
pub struct RegistryView {
    pub manifests: spec_fn(Seq<char>) -> Seq<u8>,
    pub labels: spec_fn(Seq<char>) -> Option<Seq<char>>,
}

/// Every one of the images has its name and vendor among `keys`.
pub open spec fn all_within(images: Seq<ImageView>, keys: Set<(Seq<char>, Seq<char>)>) -> bool {
    forall|i: int| 0 <= i < images.len() ==> keys.contains((#[trigger] images[i]).key())
}

/// The names and vendors of the images, in order.
pub open spec fn keys_of(images: Seq<ImageView>) -> Seq<(Seq<char>, Seq<char>)> {
    images.map_values(|image: ImageView| image.key())
}

impl RegistryView {
    /// The kits that the metadata under the label of a platform depends
    /// on; none where there is no label or it does not decode.
    pub open spec fn served_kits(self, uri: Seq<char>) -> Seq<ImageView> {
        match (self.labels)(uri) {
            Some(label) => match decoded_metadata(label) {
                Ok(metadata) => metadata.kits,
                Err(_) => Seq::empty(),
            },
            None => Seq::empty(),
        }
    }

    /// Whatever metadata the registry serves depends only on kits whose
    /// name and vendor are among `keys`.
    pub open spec fn within(self, keys: Set<(Seq<char>, Seq<char>)>) -> bool {
        forall|uri: Seq<char>| all_within(#[trigger] self.served_kits(uri), keys)
    }

    /// What the registry answers to a request.
    pub open spec fn reply(self, step: StepView) -> ReplyView {
        match step {
            StepView::GetConfig { uri } => ReplyView::Config((self.labels)(uri)),
            StepView::GetManifest { uri } => ReplyView::Manifest((self.manifests)(uri)),
            _ => ReplyView::Manifest(Seq::empty()),
        }
    }
}

/// Whether a step is an end: a lock or an error.
pub open spec fn is_end(step: StepView) -> bool {
    step is Resolved || step is Failed
}

/// Where a resolution that asks for `step` stands after at most `steps`
/// answers of the registry: at its end, if it has come to one by then.
pub open spec fn run(state: ResolutionView, step: StepView, registry: RegistryView, steps: nat)
    -> StepView
    decreases steps,
{
    if is_end(step) || steps == 0 {
        step
    } else {
        let next = state.answer(registry.reply(step));
        run(next.0, next.1, registry, (steps - 1) as nat)
    }
}

impl ResolutionView {
    /// Every kit that the resolution knows or has yet to look at has its
    /// name and vendor among `keys`.
    pub open spec fn within(self, keys: Set<(Seq<char>, Seq<char>)>) -> bool {
        &&& all_within(self.known, keys)
        &&& all_within(self.batch, keys)
        &&& all_within(self.queued, keys)
    }

    /// How far the kit that is being asked about has got: its manifest is
    /// awaited, then its platforms, and last of all the SDK's manifest.
    pub open spec fn rank(self) -> int {
        match self.stage {
            StageView::KitManifest { .. } => 2,
            StageView::KitConfig { .. } => 1,
            _ => 0,
        }
    }

    /// The platforms of the kit that are yet to be asked about.
    pub open spec fn platforms_left(self) -> int {
        match self.stage {
            StageView::KitConfig { kit, search } => search.digests.len() - search.index,
            _ => 0,
        }
    }

    /// No more kits are known than there are names and vendors.
    pub proof fn known_kits_are_few(self, keys: Set<(Seq<char>, Seq<char>)>)
        requires
            one_version_per_key(self.known),
            all_within(self.known, keys),
            keys.finite(),
        ensures
            self.known.len() <= keys.len(),
    {
        let met = keys_of(self.known);
        assert(met.no_duplicates()) by {
            assert forall|i: int, j: int|
                0 <= i < met.len() && 0 <= j < met.len() && i != j implies met[i] != met[j] by {
                assert(self.known[i].key() != self.known[j].key());
            }
        }
        met.unique_seq_to_set();
        assert(met.to_set().subset_of(keys)) by {
            assert forall|key: (Seq<char>, Seq<char>)| met.to_set().contains(key) implies keys.contains(
                key,
            ) by {
                let i = choose|i: int| 0 <= i < met.len() && met[i] == key;
                assert(self.known[i].key() == key);
            }
        }
        lemma_len_subset(met.to_set(), keys);
    }

    /// A walk from between two kits either ends, or asks for the manifest
    /// of a kit that it now knows besides those it knew, or asks for the
    /// manifest of the SDK; and it meets no kit from outside `keys`.
    pub proof fn scan_stays_within(self, keys: Set<(Seq<char>, Seq<char>)>)
        requires
            self.within(keys),
        ensures
            self.scan().0.within(keys),
            is_end(self.scan().1) || match self.scan().0.stage {
                StageView::KitManifest { .. } => self.scan().0.known.len() == self.known.len() + 1,
                StageView::SdkManifest { .. } => self.scan().0.known == self.known,
                _ => false,
            },
        decreases self.work_left(),
    {
        if 0 <= self.cursor < self.batch.len() {
            let image = self.batch[self.cursor];
            match version_from(self.known, image.key(), 0) {
                Some(version) => {
                    if version == image.version {
                        self.passing_over().scan_stays_within(keys);
                    }
                },
                None => {
                    assert(keys.contains(image.key()));
                },
            }
        } else if self.queued.len() > 0 {
            ResolutionView {
                batch: self.queued,
                cursor: 0,
                queued: Seq::empty(),
                ..self
            }.scan_stays_within(keys);
        }
    }

    /// A resolution over finitely many names and vendors ends: however it
    /// stands, the registry's answers bring it to a lock or to an error
    /// after `steps` of them.
    pub proof fn run_ends(
        self,
        step: StepView,
        registry: RegistryView,
        keys: Set<(Seq<char>, Seq<char>)>,
    ) -> (steps: nat)
        requires
            self.wf(),
            keys.finite(),
            self.within(keys),
            registry.within(keys),
        ensures
            is_end(run(self, step, registry, steps)),
        decreases keys.len() - self.known.len(), self.rank(), self.platforms_left(),
    {
        if is_end(step) {
            return 0;
        }
        let reply = registry.reply(step);
        let next = self.answer(reply);
        self.answer_keeps_wf(reply);
        self.known_kits_are_few(keys);
        assert(run(self, step, registry, 1) == next.1) by {
            assert(run(next.0, next.1, registry, 0) == next.1);
        }
        if is_end(next.1) {
            return 1;
        }
        match (self.stage, reply) {
            (StageView::KitConfig { kit, search }, ReplyView::Config(label)) => {
                match search.answer(label) {
                    KitStepView::Found(metadata) => {
                        let uri = step->GetConfig_uri;
                        assert(metadata.kits == registry.served_kits(uri));
                        assert(all_within(registry.served_kits(uri), keys));
                        let rested = ResolutionView {
                            locked: self.locked.push(kit),
                            sdks: with_candidate(self.sdks, metadata.sdk),
                            queued: self.queued + metadata.kits,
                            stage: StageView::Done,
                            ..self
                        };
                        assert(all_within(rested.queued, keys)) by {
                            assert forall|i: int| 0 <= i < rested.queued.len() implies keys.contains(
                                (#[trigger] rested.queued[i]).key(),
                            ) by {
                                if i < self.queued.len() {
                                    assert(rested.queued[i] == self.queued[i]);
                                } else {
                                    assert(rested.queued[i] == metadata.kits[i - self.queued.len()]);
                                }
                            }
                        }
                        rested.scan_stays_within(keys);
                    },
                    _ => {},
                }
            },
            _ => {},
        }
        next.0.known_kits_are_few(keys);
        let more = next.0.run_ends(next.1, registry, keys);
        assert(run(self, step, registry, more + 1) == run(next.0, next.1, registry, more));
        more + 1
    }
}

/// The resolution of a project ends, where the kits it declares and the
/// kits that any metadata in the registry depends on have finitely many
/// names and vendors between them, cycles or not.
pub proof fn resolution_ends(
    vendors: Seq<(Seq<char>, Seq<char>)>,
    sdk: Option<ImageView>,
    kits: Seq<ImageView>,
    registry: RegistryView,
    keys: Set<(Seq<char>, Seq<char>)>,
) -> (steps: nat)
    requires
        keys.finite(),
        all_within(kits, keys),
        registry.within(keys),
    ensures
        is_end(
            run(
                initial(vendors, sdk, kits).scan().0,
                initial(vendors, sdk, kits).scan().1,
                registry,
                steps,
            ),
        ),
{
    let start = initial(vendors, sdk, kits);
    start.scan_keeps_wf();
    start.scan_stays_within(keys);
    start.scan().0.run_ends(start.scan().1, registry, keys)
}

} // verus!
