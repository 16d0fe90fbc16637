//! The resolver: holder of at most one archive-backed finder, the
//! bundle-side lookup it delegates to, and the fallback chain (direct path,
//! extension-augmented path, archive lookup) as an explicit state machine
//! whose disk probes the host performs.

use vstd::prelude::*;

use crate::finder::BundleError;
use crate::finder::FinderState;
use crate::finder::augment_name;
use crate::finder::locate_post;
use crate::finder::spec_augmented;
use crate::finder::zip_index;
use crate::format::FileFormat;

verus! {

/// Holder of at most one opened bundle. Starts empty, becomes populated by
/// the one `open_bundle` call, and is never reset.
pub struct Resolver {
    finder: Option<FinderState>,
}

impl Resolver {
    /// The entry directory of the opened bundle, if one has been opened.
    pub closed spec fn bundle(&self) -> Option<Map<Seq<char>, Seq<u8>>> {
        match self.finder {
            Some(f) => Some(f.entries()),
            None => None,
        }
    }

    /// A resolver with no bundle: only the filesystem will answer.
    pub fn new() -> (r: Resolver)
        ensures
            r.bundle() is None,
    {
        Resolver { finder: None }
    }

    /// Establish the archive backing store from the bundle's bytes, once.
    /// Fails with `NotArchive` exactly when the bytes do not decode as an
    /// archive, leaving the resolver without a bundle: a failed startup,
    /// never a silent "not found".
    pub fn open_bundle(&mut self, source: Vec<u8>) -> (r: Result<(), BundleError>)
        requires
            old(self).bundle() is None,
        ensures
            match r {
                Ok(_) => zip_index(source@) is Some && final(self).bundle() == zip_index(source@),
                Err(e) => e == BundleError::NotArchive && zip_index(source@) is None
                    && final(self).bundle() is None,
            },
    {
        match FinderState::new(source) {
            Ok(f) => {
                self.finder = Some(f);
                Ok(())
            },
            Err(e) => Err(e),
        }
    }

    /// The archive step of the fallback chain: look the name up in the
    /// opened bundle, with extension fallback. Without a bundle the answer
    /// is a soft "none".
    pub fn locate_in_bundle(&mut self, name: &str, format: FileFormat) -> (r: Result<
        Option<Vec<u8>>,
        BundleError,
    >)
        ensures
            final(self).bundle() == old(self).bundle(),
            match old(self).bundle() {
                Some(e) => locate_post(e, name@, format, r),
                None => r matches Ok(found) && found is None,
            },
    {
        match self.finder {
            Some(ref mut f) => f.locate(name, format),
            None => Ok(None),
        }
    }
}

/// The stages of one resolution attempt, in fallback order: probe the name
/// itself on disk, probe the extension-augmented name on disk, ask the
/// bundle; `Disk` marks a chain settled by a successful disk probe.
#[derive(Clone, Copy, Debug, PartialEq, Eq, Structural)]
pub enum Stage {
    Exact,
    Augmented,
    Bundle,
    Disk,
}

/// The state of one resolution attempt: the requested name and format and
/// the stage the chain has reached.
pub struct ChainModel {
    pub name: Seq<char>,
    pub format: FileFormat,
    pub stage: Stage,
}

/// A resolution attempt begins with the direct disk probe.
pub open spec fn chain_start(name: Seq<char>, format: FileFormat) -> ChainModel {
    ChainModel { name, format, stage: Stage::Exact }
}

/// The path the chain's pending disk probe names.
pub open spec fn probe_target(c: ChainModel) -> Seq<char> {
    if c.stage is Exact {
        c.name
    } else {
        spec_augmented(c.name, c.format)
    }
}

/// How a disk probe's outcome advances the chain: a path that opened
/// settles resolution at once; a missing path falls through to the next
/// store in order.
pub open spec fn chain_after_disk(c: ChainModel, opened: bool) -> ChainModel {
    if opened {
        ChainModel { stage: Stage::Disk, ..c }
    } else if c.stage is Exact {
        ChainModel { stage: Stage::Augmented, ..c }
    } else {
        ChainModel { stage: Stage::Bundle, ..c }
    }
}

/// One resolution attempt through the ordered fallback chain. The host
/// performs each disk probe this chain names and reports its outcome; the
/// chain decides what comes next.
pub struct ResolveChain {
    name: String,
    format: FileFormat,
    stage: Stage,
}

impl View for ResolveChain {
    type V = ChainModel;

    closed spec fn view(&self) -> ChainModel {
        ChainModel { name: self.name@, format: self.format, stage: self.stage }
    }
}

impl ResolveChain {
    /// Begin resolving `name` under `format`.
    pub fn begin(name: &str, format: FileFormat) -> (c: ResolveChain)
        ensures
            c@ == chain_start(name@, format),
    {
        ResolveChain { name: name.to_owned(), format, stage: Stage::Exact }
    }

    /// The stage the chain has reached.
    pub fn stage(&self) -> (s: Stage)
        ensures
            s == self@.stage,
    {
        self.stage
    }

    /// The path the host should try to open on disk next.
    pub fn probe_path(&self) -> (p: String)
        requires
            self@.stage is Exact || self@.stage is Augmented,
        ensures
            p@ == probe_target(self@),
    {
        match self.stage {
            Stage::Exact => self.name.clone(),
            _ => augment_name(self.name.as_str(), self.format),
        }
    }

    /// Report whether the probed path opened; the chain advances
    /// accordingly.
    pub fn report_disk(&mut self, opened: bool)
        requires
            old(self)@.stage is Exact || old(self)@.stage is Augmented,
        ensures
            final(self)@ == chain_after_disk(old(self)@, opened),
    {
        if opened {
            self.stage = Stage::Disk;
        } else {
            match self.stage {
                Stage::Exact => {
                    self.stage = Stage::Augmented;
                },
                _ => {
                    self.stage = Stage::Bundle;
                },
            }
        }
    }
}

/// Law: direct filesystem presence wins and short-circuits every other
/// store. A chain whose first probe is the name itself settles as soon as
/// that probe opens; it never reaches the bundle stage, so the archive is
/// observably skipped.
pub proof fn lemma_disk_presence_short_circuits(name: Seq<char>, format: FileFormat)
    ensures
        probe_target(chain_start(name, format)) == name,
        chain_after_disk(chain_start(name, format), true).stage is Disk,
        !(chain_after_disk(chain_start(name, format), true).stage is Bundle),
{
}

/// Law: absence everywhere is soft. When both disk probes miss, the chain
/// proceeds to the bundle in order: first the name itself, then the
/// extension-augmented name; and a bundle that lacks both spellings
/// answers "none" rather than failing.
pub proof fn lemma_absence_is_soft(
    name: Seq<char>,
    format: FileFormat,
    entries: Map<Seq<char>, Seq<u8>>,
    r: Result<Option<Vec<u8>>, BundleError>,
)
    requires
        !entries.contains_key(name),
        !entries.contains_key(spec_augmented(name, format)),
        locate_post(entries, name, format, r),
    ensures
        probe_target(chain_start(name, format)) == name,
        probe_target(chain_after_disk(chain_start(name, format), false)) == spec_augmented(
            name,
            format,
        ),
        chain_after_disk(chain_after_disk(chain_start(name, format), false), false).stage
            is Bundle,
        r matches Ok(found) && found is None,
{
}

/// Law: the archive fallback is exact. For a name absent on disk and
/// absent from the bundle verbatim, but listed in the bundle under the
/// extension-augmented spelling, the lookup never answers a silent
/// "none", and whatever bytes it does yield are exactly that entry's
/// decompressed bytes.
pub proof fn lemma_archive_fallback_exact(
    name: Seq<char>,
    format: FileFormat,
    entries: Map<Seq<char>, Seq<u8>>,
    r: Result<Option<Vec<u8>>, BundleError>,
)
    requires
        !entries.contains_key(name),
        entries.contains_key(spec_augmented(name, format)),
        locate_post(entries, name, format, r),
    ensures
        !(r matches Ok(found) && found is None),
        match r {
            Ok(found) => match found {
                Some(bytes) => bytes@ == entries[spec_augmented(name, format)],
                None => false,
            },
            Err(be) => be == BundleError::Damaged,
        },
{
}

} // verus!
