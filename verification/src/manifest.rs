//! Manifest lists: one manifest per platform of an image.
use vstd::prelude::*;
use vstd::string::StringExecFns;
use crate::error::{DockerArchitecture, Error, ErrorView};
use crate::json::{json_parse, json_views, parse_json, Json, JsonView};
use crate::metadata::shows;
use crate::text::text_eq;

verus! {

/// The architecture that a manifest names in its platform.
pub open spec fn published_architecture(name: Seq<char>) -> Option<DockerArchitecture> {
    if name == "amd64"@ {
        Some(DockerArchitecture::Amd64)
    } else if name == "arm64"@ {
        Some(DockerArchitecture::Arm64)
    } else {
        None
    }
}

/// The architecture that a caller asks for, by either of its usual names.
pub open spec fn requested_architecture(name: Seq<char>) -> Option<DockerArchitecture> {
    if name == "x86_64"@ || name == "amd64"@ {
        Some(DockerArchitecture::Amd64)
    } else if name == "aarch64"@ || name == "arm64"@ {
        Some(DockerArchitecture::Arm64)
    } else {
        None
    }
}

impl DockerArchitecture {
    /// Reads the architecture that a caller asks for: `x86_64` or `amd64`,
    /// `aarch64` or `arm64`.
    pub fn try_from(name: &str) -> (arch: Result<DockerArchitecture, Error>)
        ensures
            match arch {
                Ok(arch) => requested_architecture(name@) == Some(arch),
                Err(error) => requested_architecture(name@).is_none() && error@
                    == (ErrorView::InvalidArchitecture { name: name@ }),
            },
    {
        if text_eq(name, "x86_64") || text_eq(name, "amd64") {
            Ok(DockerArchitecture::Amd64)
        } else if text_eq(name, "aarch64") || text_eq(name, "arm64") {
            Ok(DockerArchitecture::Arm64)
        } else {
            Err(Error::InvalidArchitecture { name: String::from_str(name) })
        }
    }

    /// Reads the architecture that a manifest names: `amd64` or `arm64`.
    pub fn published(name: &str) -> (arch: Option<DockerArchitecture>)
        ensures
            arch == published_architecture(name@),
    {
        if text_eq(name, "amd64") {
            Some(DockerArchitecture::Amd64)
        } else if text_eq(name, "arm64") {
            Some(DockerArchitecture::Arm64)
        } else {
            None
        }
    }
}

/// One entry of a manifest list: the digest of a manifest and, where the
/// entry has a platform, its architecture.
#[derive(Debug)]
pub struct ManifestEntry {
    pub digest: String,
    pub architecture: Option<DockerArchitecture>,
}

/// What a `ManifestEntry` says.
pub struct ManifestEntryView {
    pub digest: Seq<char>,
    pub architecture: Option<DockerArchitecture>,
}

impl View for ManifestEntry {
    type V = ManifestEntryView;

    open spec fn view(&self) -> ManifestEntryView {
        ManifestEntryView { digest: self.digest@, architecture: self.architecture }
    }
}

impl Clone for ManifestEntry {
    fn clone(&self) -> (copy: Self)
        ensures
            copy@ == self@,
    {
        ManifestEntry { digest: self.digest.clone(), architecture: self.architecture }
    }
}

/// The views of a list of entries.
pub open spec fn entry_views(entries: Seq<ManifestEntry>) -> Seq<ManifestEntryView> {
    entries.map_values(|entry: ManifestEntry| entry@)
}

/// The entry that a JSON object declares: a string member `digest` and,
/// unless `platform` is absent or null, an object there whose string member
/// `architecture` names a published architecture.
pub open spec fn entry_of(doc: JsonView) -> Option<ManifestEntryView> {
    match doc.text_member("digest"@) {
        None => None,
        Some(digest) => match doc.member("platform"@) {
            None => Some(ManifestEntryView { digest, architecture: None }),
            Some(JsonView::Null) => Some(ManifestEntryView { digest, architecture: None }),
            Some(platform) => match platform.text_member("architecture"@) {
                None => None,
                Some(name) => match published_architecture(name) {
                    None => None,
                    Some(arch) => Some(ManifestEntryView { digest, architecture: Some(arch) }),
                },
            },
        },
    }
}

/// The entries that the items of a JSON array declare, if every item
/// declares one.
pub open spec fn entries_of(items: Seq<JsonView>) -> Option<Seq<ManifestEntryView>> {
    if forall|i: int| 0 <= i < items.len() ==> (#[trigger] entry_of(items[i])).is_some() {
        Some(Seq::new(items.len(), |i: int| entry_of(items[i]).unwrap()))
    } else {
        None
    }
}

/// The entries of the manifest list that `bytes` hold as JSON: an object
/// whose member `manifests` is an array of entries.
pub open spec fn manifest_list(bytes: Seq<u8>) -> Option<Seq<ManifestEntryView>> {
    match json_parse(bytes) {
        None => None,
        Some(doc) => match doc.items_member("manifests"@) {
            None => None,
            Some(items) => entries_of(items),
        },
    }
}

/// The first entry among `entries[from..]` that is for `arch`. An entry
/// without a platform is for no architecture.
pub open spec fn first_for(entries: Seq<ManifestEntryView>, arch: DockerArchitecture, from: int)
    -> Option<ManifestEntryView>
    decreases entries.len() - from,
{
    if from < 0 || from >= entries.len() {
        None
    } else if entries[from].architecture == Some(arch) {
        Some(entries[from])
    } else {
        first_for(entries, arch, from + 1)
    }
}

/// The manifest of `source` for the architecture that `arch` names.
pub open spec fn manifest_for(manifest: Seq<u8>, source: Seq<char>, arch: Seq<char>) -> Result<
    ManifestEntryView,
    ErrorView,
> {
    match manifest_list(manifest) {
        None => Err(ErrorView::ManifestList),
        Some(entries) => match requested_architecture(arch) {
            None => Err(ErrorView::InvalidArchitecture { name: arch }),
            Some(wanted) => match first_for(entries, wanted, 0) {
                Some(entry) => Ok(entry),
                None => Err(ErrorView::ArchitectureNotFound { arch: wanted, source }),
            },
        },
    }
}

impl ManifestEntry {
    /// Reads an entry from the JSON object that declares it.
    pub fn from_json(doc: &Json) -> (entry: Option<ManifestEntry>)
        ensures
            shows(entry, entry_of(doc@)),
    {
        let digest = match doc.text_at("digest") {
            Some(digest) => digest,
            None => { return None; },
        };
        match doc.get("platform") {
            None => Some(ManifestEntry { digest: digest.clone(), architecture: None }),
            Some(Json::Null) => Some(ManifestEntry { digest: digest.clone(), architecture: None }),
            Some(platform) => {
                let name = match platform.text_at("architecture") {
                    Some(name) => name,
                    None => { return None; },
                };
                match DockerArchitecture::published(name.as_str()) {
                    Some(arch) => Some(
                        ManifestEntry { digest: digest.clone(), architecture: Some(arch) },
                    ),
                    None => None,
                }
            },
        }
    }

    /// Reads the entries of the manifest list that `bytes` hold.
    pub fn list(bytes: &[u8]) -> (entries: Option<Vec<ManifestEntry>>)
        ensures
            match entries {
                Some(entries) => manifest_list(bytes@) == Some(entry_views(entries@)),
                None => manifest_list(bytes@).is_none(),
            },
    {
        let doc = match parse_json(bytes) {
            Some(doc) => doc,
            None => { return None; },
        };
        let items = match doc.items_at("manifests") {
            Some(items) => items,
            None => { return None; },
        };
        let mut entries: Vec<ManifestEntry> = Vec::new();
        let mut i: usize = 0;
        while i < items.len()
            invariant
                i <= items.len(),
                entries@.len() == i,
                manifest_list(bytes@) == entries_of(json_views(items@)),
                forall|j: int| 0 <= j < i ==> #[trigger] entry_of(items@[j]@) == Some(entries@[j]@),
            decreases items.len() - i,
        {
            match ManifestEntry::from_json(&items[i]) {
                Some(entry) => {
                    entries.push(entry);
                },
                None => {
                    proof {
                        assert(json_views(items@)[i as int] == items@[i as int]@);
                    }
                    return None;
                },
            }
            i += 1;
        }
        proof {
            assert(entry_views(entries@) =~= Seq::new(
                items@.len(),
                |i: int| entry_of(json_views(items@)[i]).unwrap(),
            ));
        }
        Some(entries)
    }

    /// Picks the first entry that is for `arch`.
    pub fn find(entries: &Vec<ManifestEntry>, arch: DockerArchitecture) -> (found: Option<
        &ManifestEntry,
    >)
        ensures
            shows(found, first_for(entry_views(entries@), arch, 0)),
    {
        let mut i: usize = 0;
        while i < entries.len()
            invariant
                i <= entries.len(),
                first_for(entry_views(entries@), arch, 0) == first_for(
                    entry_views(entries@),
                    arch,
                    i as int,
                ),
            decreases entries.len() - i,
        {
            let hit = match entries[i].architecture {
                Some(DockerArchitecture::Amd64) => matches!(arch, DockerArchitecture::Amd64),
                Some(DockerArchitecture::Arm64) => matches!(arch, DockerArchitecture::Arm64),
                None => false,
            };
            proof {
                assert(entry_views(entries@)[i as int] == entries@[i as int]@);
            }
            if hit {
                return Some(&entries[i]);
            }
            i += 1;
        }
        None
    }
}

} // verus!
