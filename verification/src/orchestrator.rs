//! The provisioning run as a state machine. Stages advance strictly in
//! sequence; every transition reports a fixed progress checkpoint, the
//! download and extraction stages report within their reserved ranges, and
//! the run ends in exactly one completion event. The emitted fractions are
//! logged in a ghost sequence, over which the ordering guarantees are
//! stated and proved: the stream is non-decreasing, bounded, and reaches
//! the full fraction only when the run succeeded.

use vstd::prelude::*;
use crate::progress::{
    download_permille, download_progress, extract_permille, extract_progress,
    lemma_download_permille_bounds, lemma_extract_permille_bounds, CompletionEvent,
    ProgressEvent, PROGRESS_ARCHIVE_PARSE, PROGRESS_CATALOG_FETCH, PROGRESS_CONFIGURE,
    PROGRESS_DONE, PROGRESS_DOWNLOAD_END, PROGRESS_DOWNLOAD_START, PROGRESS_EXECUTABLE,
    PROGRESS_EXTRACT_END, PROGRESS_EXTRACT_START, PROGRESS_PACKAGE_SELECTED, PROGRESS_RENAME,
    PROGRESS_VERIFY,
};

verus! {

/// The stages of one provisioning run, in order.
#[derive(Debug, Clone, Copy, PartialEq, Eq, Structural)]
pub enum Stage {
    Init,
    FetchingCatalog,
    AwaitingDownload,
    Downloading,
    Extracting,
    Configuring,
    Verifying,
    Done,
    Failed,
}

/// One provisioning run.
pub struct Orchestrator {
    /// The current stage.
    pub stage: Stage,
    /// The major Java version being provisioned.
    pub major_version: i32,
    /// The last progress fraction reported.
    pub last_permille: u32,
    /// Every progress fraction reported so far, in order.
    pub emitted: Ghost<Seq<u32>>,
}

impl Orchestrator {
    /// The invariant of a run: the reported fractions are non-decreasing and
    /// bounded, the last report matches the current fraction, and the
    /// fraction sits in the range its stage reserves — the full fraction
    /// belongs to the completed stage alone.
    pub open spec fn wf(self) -> bool {
        &&& match self.stage {
            Stage::Init => self.last_permille == 0,
            Stage::FetchingCatalog => self.last_permille == PROGRESS_CATALOG_FETCH,
            Stage::AwaitingDownload => self.last_permille == PROGRESS_PACKAGE_SELECTED,
            Stage::Downloading => PROGRESS_DOWNLOAD_START <= self.last_permille
                <= PROGRESS_DOWNLOAD_END,
            Stage::Extracting => PROGRESS_EXTRACT_START <= self.last_permille
                <= PROGRESS_EXTRACT_END,
            Stage::Configuring => PROGRESS_CONFIGURE <= self.last_permille
                <= PROGRESS_EXECUTABLE,
            Stage::Verifying => self.last_permille == PROGRESS_VERIFY,
            Stage::Done => self.last_permille == PROGRESS_DONE,
            Stage::Failed => self.last_permille < PROGRESS_DONE,
        }
        &&& forall|i: int|
            0 <= i < self.emitted@.len() ==> #[trigger] self.emitted@[i] <= self.last_permille
        &&& forall|i: int|
            0 <= i < self.emitted@.len() - 1 ==> #[trigger] self.emitted@[i] <= self.emitted@[i
                + 1]
        &&& self.emitted@.len() > 0 ==> self.emitted@.last() == self.last_permille
    }

    /// A fresh run for one major version.
    pub fn new(major_version: i32) -> (o: Orchestrator)
        ensures
            o.wf(),
            o.stage is Init,
            o.major_version == major_version,
            o.emitted@ =~= Seq::<u32>::empty(),
    {
        Orchestrator {
            stage: Stage::Init,
            major_version,
            last_permille: 0,
            emitted: Ghost(Seq::empty()),
        }
    }

    /// Reports one fraction, clamped so the stream never decreases, and
    /// logs it.
    fn emit(&mut self, target: u32, message: String) -> (ev: ProgressEvent)
        requires
            target <= PROGRESS_DONE,
        ensures
            final(self).stage == old(self).stage,
            final(self).major_version == old(self).major_version,
            final(self).last_permille == if target >= old(self).last_permille {
                target
            } else {
                old(self).last_permille
            },
            final(self).emitted@ == old(self).emitted@.push(final(self).last_permille),
            ev.permille == final(self).last_permille,
            ev.message == message,
    {
        let p = if target >= self.last_permille {
            target
        } else {
            self.last_permille
        };
        self.last_permille = p;
        proof {
            self.emitted@ = self.emitted@.push(p);
        }
        ProgressEvent { permille: p, message }
    }

    /// Starts the run: the catalog is queried next.
    pub fn begin_catalog_fetch(&mut self) -> (ev: ProgressEvent)
        requires
            old(self).wf(),
            old(self).stage is Init,
        ensures
            final(self).wf(),
            final(self).stage is FetchingCatalog,
            final(self).major_version == old(self).major_version,
            ev.permille == PROGRESS_CATALOG_FETCH,
            final(self).emitted@ == old(self).emitted@.push(PROGRESS_CATALOG_FETCH),
            ev.message@ == "Fetching Java version information"@,
    {
        self.stage = Stage::FetchingCatalog;
        self.emit(PROGRESS_CATALOG_FETCH, "Fetching Java version information".to_owned())
    }

    /// A package was selected from the catalog.
    pub fn package_selected(&mut self) -> (ev: ProgressEvent)
        requires
            old(self).wf(),
            old(self).stage is FetchingCatalog,
        ensures
            final(self).wf(),
            final(self).stage is AwaitingDownload,
            final(self).major_version == old(self).major_version,
            ev.permille == PROGRESS_PACKAGE_SELECTED,
            final(self).emitted@ == old(self).emitted@.push(PROGRESS_PACKAGE_SELECTED),
            ev.message@ == "Preparing to download Java"@,
    {
        self.stage = Stage::AwaitingDownload;
        self.emit(PROGRESS_PACKAGE_SELECTED, "Preparing to download Java".to_owned())
    }

    /// The download begins.
    pub fn begin_download(&mut self) -> (ev: ProgressEvent)
        requires
            old(self).wf(),
            old(self).stage is AwaitingDownload,
        ensures
            final(self).wf(),
            final(self).stage is Downloading,
            final(self).major_version == old(self).major_version,
            ev.permille == PROGRESS_DOWNLOAD_START,
            final(self).emitted@ == old(self).emitted@.push(PROGRESS_DOWNLOAD_START),
            ev.message@ == "Starting Java download"@,
    {
        self.stage = Stage::Downloading;
        self.emit(PROGRESS_DOWNLOAD_START, "Starting Java download".to_owned())
    }

    /// Reports download progress: `received` of `total` bytes, on the
    /// download stage's formula, never below what was already reported.
    pub fn download_progress(&mut self, received: u64, total: u64, message: String) -> (ev:
        ProgressEvent)
        requires
            old(self).wf(),
            old(self).stage is Downloading,
        ensures
            final(self).wf(),
            final(self).stage is Downloading,
            final(self).major_version == old(self).major_version,
            ev.permille as nat == if download_permille(received as nat, total as nat) >= old(
                self,
            ).last_permille as nat {
                download_permille(received as nat, total as nat)
            } else {
                old(self).last_permille as nat
            },
            final(self).emitted@ == old(self).emitted@.push(ev.permille),
            ev.message == message,
    {
        proof {
            lemma_download_permille_bounds(received as nat, total as nat);
        }
        let p = download_progress(received, total);
        self.emit(p, message)
    }

    /// The download is complete; extraction begins.
    pub fn begin_extract(&mut self) -> (ev: ProgressEvent)
        requires
            old(self).wf(),
            old(self).stage is Downloading,
        ensures
            final(self).wf(),
            final(self).stage is Extracting,
            final(self).major_version == old(self).major_version,
            ev.permille == PROGRESS_EXTRACT_START,
            final(self).emitted@ == old(self).emitted@.push(PROGRESS_EXTRACT_START),
            ev.message@ == "Download complete, extracting Java"@,
    {
        self.stage = Stage::Extracting;
        self.emit(PROGRESS_EXTRACT_START, "Download complete, extracting Java".to_owned())
    }

    /// The archive is being parsed.
    pub fn parsing_archive(&mut self) -> (ev: ProgressEvent)
        requires
            old(self).wf(),
            old(self).stage is Extracting,
        ensures
            final(self).wf(),
            final(self).stage is Extracting,
            final(self).major_version == old(self).major_version,
            ev.permille == if PROGRESS_ARCHIVE_PARSE >= old(self).last_permille {
                PROGRESS_ARCHIVE_PARSE
            } else {
                old(self).last_permille
            },
            final(self).emitted@ == old(self).emitted@.push(ev.permille),
            ev.message@ == "Parsing archive"@,
    {
        self.emit(PROGRESS_ARCHIVE_PARSE, "Parsing archive".to_owned())
    }

    /// One archive entry was materialized: entry `index` of `total`.
    pub fn entry_extracted(&mut self, index: usize, total: usize, message: String) -> (ev:
        ProgressEvent)
        requires
            old(self).wf(),
            old(self).stage is Extracting,
            index < total,
        ensures
            final(self).wf(),
            final(self).stage is Extracting,
            final(self).major_version == old(self).major_version,
            ev.permille as nat == if extract_permille(index as nat + 1, total as nat) >= old(
                self,
            ).last_permille as nat {
                extract_permille(index as nat + 1, total as nat)
            } else {
                old(self).last_permille as nat
            },
            final(self).emitted@ == old(self).emitted@.push(ev.permille),
            ev.message == message,
    {
        proof {
            lemma_extract_permille_bounds(index as nat + 1, total as nat);
        }
        let p = extract_progress(index + 1, total);
        self.emit(p, message)
    }

    /// Configuration of the installed runtime begins.
    pub fn configuring(&mut self) -> (ev: ProgressEvent)
        requires
            old(self).wf(),
            old(self).stage is Extracting,
        ensures
            final(self).wf(),
            final(self).stage is Configuring,
            final(self).major_version == old(self).major_version,
            ev.permille == PROGRESS_CONFIGURE,
            final(self).emitted@ == old(self).emitted@.push(PROGRESS_CONFIGURE),
            ev.message@ == "Configuring Java environment"@,
    {
        self.stage = Stage::Configuring;
        self.emit(PROGRESS_CONFIGURE, "Configuring Java environment".to_owned())
    }

    /// The extracted directory is renamed onto its canonical place.
    pub fn renaming(&mut self) -> (ev: ProgressEvent)
        requires
            old(self).wf(),
            old(self).stage is Configuring,
        ensures
            final(self).wf(),
            final(self).stage is Configuring,
            final(self).major_version == old(self).major_version,
            ev.permille == if PROGRESS_RENAME >= old(self).last_permille {
                PROGRESS_RENAME
            } else {
                old(self).last_permille
            },
            final(self).emitted@ == old(self).emitted@.push(ev.permille),
            ev.message@ == "Renaming Java directory"@,
    {
        self.emit(PROGRESS_RENAME, "Renaming Java directory".to_owned())
    }

    /// The executable path is computed.
    pub fn building_path(&mut self) -> (ev: ProgressEvent)
        requires
            old(self).wf(),
            old(self).stage is Configuring,
        ensures
            final(self).wf(),
            final(self).stage is Configuring,
            final(self).major_version == old(self).major_version,
            ev.permille == if PROGRESS_EXECUTABLE >= old(self).last_permille {
                PROGRESS_EXECUTABLE
            } else {
                old(self).last_permille
            },
            final(self).emitted@ == old(self).emitted@.push(ev.permille),
            ev.message@ == "Building Java executable path"@,
    {
        self.emit(PROGRESS_EXECUTABLE, "Building Java executable path".to_owned())
    }

    /// The installation is being verified.
    pub fn verifying(&mut self) -> (ev: ProgressEvent)
        requires
            old(self).wf(),
            old(self).stage is Configuring,
        ensures
            final(self).wf(),
            final(self).stage is Verifying,
            final(self).major_version == old(self).major_version,
            ev.permille == PROGRESS_VERIFY,
            final(self).emitted@ == old(self).emitted@.push(PROGRESS_VERIFY),
            ev.message@ == "Verifying installation"@,
    {
        self.stage = Stage::Verifying;
        self.emit(PROGRESS_VERIFY, "Verifying installation".to_owned())
    }

    /// The run succeeded: the full fraction is reported, exactly once, and
    /// the single completion event carries the executable path.
    pub fn finish(&mut self, executable_path: String) -> (r: (ProgressEvent, CompletionEvent))
        requires
            old(self).wf(),
            old(self).stage is Verifying,
        ensures
            final(self).wf(),
            final(self).stage is Done,
            final(self).major_version == old(self).major_version,
            r.0.permille == PROGRESS_DONE,
            final(self).emitted@ == old(self).emitted@.push(PROGRESS_DONE),
            r.0.message@ == "Java installation complete"@,
            r.1.success == true,
            r.1.detail == Some(executable_path),
    {
        self.stage = Stage::Done;
        let ev = self.emit(PROGRESS_DONE, "Java installation complete".to_owned());
        let done = CompletionEvent { success: true, detail: Some(executable_path) };
        (ev, done)
    }

    /// The run failed: no further fraction is reported and the single
    /// completion event carries the error description. A failed run has
    /// never reported the full fraction.
    pub fn fail(&mut self, detail: String) -> (r: CompletionEvent)
        requires
            old(self).wf(),
            !(old(self).stage is Done),
            !(old(self).stage is Failed),
        ensures
            final(self).wf(),
            final(self).stage is Failed,
            final(self).major_version == old(self).major_version,
            final(self).emitted@ == old(self).emitted@,
            final(self).last_permille == old(self).last_permille,
            r.success == false,
            r.detail == Some(detail),
    {
        self.stage = Stage::Failed;
        CompletionEvent { success: false, detail: Some(detail) }
    }
}

/// Within one run the reported fractions never decrease and never leave the
/// unit range.
pub proof fn lemma_progress_monotone(o: Orchestrator, i: int, j: int)
    requires
        o.wf(),
        0 <= i <= j < o.emitted@.len(),
    ensures
        o.emitted@[i] <= o.emitted@[j],
        o.emitted@[j] <= PROGRESS_DONE,
    decreases j - i,
{
    if i < j {
        lemma_progress_monotone(o, i, j - 1);
    }
}

/// A failed run has never reported the full fraction: the stream reaches
/// exactly the whole only on success.
pub proof fn lemma_full_fraction_only_on_success(o: Orchestrator, i: int)
    requires
        o.wf(),
        o.stage is Failed,
        0 <= i < o.emitted@.len(),
    ensures
        o.emitted@[i] < PROGRESS_DONE,
{
}

/// A completed run has reported the full fraction as its final report.
pub proof fn lemma_success_ends_at_full(o: Orchestrator)
    requires
        o.wf(),
        o.stage is Done,
        o.emitted@.len() > 0,
    ensures
        o.emitted@.last() == PROGRESS_DONE,
{
}

} // verus!
