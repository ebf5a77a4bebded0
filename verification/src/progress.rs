//! Progress accounting. A fraction of the overall operation is expressed in
//! permille (thousandths), so that the arithmetic of the stage formulas can
//! be carried out and verified exactly; a boundary adapter divides by
//! [`PROGRESS_SCALE`] to obtain the fraction handed to a progress sink.

use vstd::prelude::*;
use vstd::arithmetic::div_mod::{lemma_div_is_ordered, lemma_div_multiples_vanish};
use vstd::arithmetic::mul::lemma_mul_inequality;

verus! {

/// Number of permille making up a whole operation.
pub const PROGRESS_SCALE: u32 = 1000;

/// Checkpoint: the catalog is being queried.
pub const PROGRESS_CATALOG_FETCH: u32 = 100;

/// Checkpoint: a package was selected and the download is about to start.
pub const PROGRESS_PACKAGE_SELECTED: u32 = 150;

/// The download stage reports within [`PROGRESS_DOWNLOAD_START`], [`PROGRESS_DOWNLOAD_END`].
pub const PROGRESS_DOWNLOAD_START: u32 = 200;
pub const PROGRESS_DOWNLOAD_END: u32 = 800;

/// The extraction stage reports within [`PROGRESS_EXTRACT_START`], [`PROGRESS_EXTRACT_END`].
pub const PROGRESS_EXTRACT_START: u32 = 820;
pub const PROGRESS_EXTRACT_END: u32 = 950;

/// Checkpoint: the archive is being parsed.
pub const PROGRESS_ARCHIVE_PARSE: u32 = 850;

/// Checkpoints of the configuration stage.
pub const PROGRESS_CONFIGURE: u32 = 960;
pub const PROGRESS_RENAME: u32 = 970;
pub const PROGRESS_EXECUTABLE: u32 = 980;
pub const PROGRESS_VERIFY: u32 = 990;

/// The whole operation is complete.
pub const PROGRESS_DONE: u32 = 1000;

/// One progress notification: how far the operation is, in permille of the
/// whole, and a short description of the current work.
pub struct ProgressEvent {
    pub permille: u32,
    pub message: String,
}

/// The single terminal notification of a provisioning run. On success
/// `detail` carries the final executable path, on failure the error
/// description.
pub struct CompletionEvent {
    pub success: bool,
    pub detail: Option<String>,
}

/// Overall permille reported by the download stage after `received` of
/// `total` bytes; the stage stays at its start while the total is unknown
/// (reported as zero), and byte counts beyond the total do not push the
/// fraction past the stage end.
pub open spec fn download_permille(received: nat, total: nat) -> nat {
    if total == 0 {
        PROGRESS_DOWNLOAD_START as nat
    } else {
        let capped = if received <= total {
            received
        } else {
            total
        };
        PROGRESS_DOWNLOAD_START as nat + (capped * 600) / total
    }
}

/// Overall permille reported by the extraction stage after `done` of
/// `total` entries were materialized.
pub open spec fn extract_permille(done: nat, total: nat) -> nat {
    if total == 0 {
        PROGRESS_EXTRACT_START as nat
    } else {
        let capped = if done <= total {
            done
        } else {
            total
        };
        PROGRESS_EXTRACT_START as nat + (capped * 130) / total
    }
}

/// The download stage never reports outside its reserved range.
pub proof fn lemma_download_permille_bounds(received: nat, total: nat)
    ensures
        PROGRESS_DOWNLOAD_START as nat <= download_permille(received, total)
            <= PROGRESS_DOWNLOAD_END as nat,
{
    if total > 0 {
        let capped = if received <= total {
            received
        } else {
            total
        };
        lemma_mul_inequality(capped as int, total as int, 600);
        lemma_div_is_ordered(capped as int * 600, total as int * 600, total as int);
        lemma_div_multiples_vanish(600, total as int);
    }
}

/// The download stage's report never decreases as bytes arrive.
pub proof fn lemma_download_permille_monotone(r1: nat, r2: nat, total: nat)
    requires
        r1 <= r2,
    ensures
        download_permille(r1, total) <= download_permille(r2, total),
{
    if total > 0 {
        let c1 = if r1 <= total {
            r1
        } else {
            total
        };
        let c2 = if r2 <= total {
            r2
        } else {
            total
        };
        lemma_mul_inequality(c1 as int, c2 as int, 600);
        lemma_div_is_ordered(c1 as int * 600, c2 as int * 600, total as int);
    }
}

/// The extraction stage never reports outside its reserved range.
pub proof fn lemma_extract_permille_bounds(done: nat, total: nat)
    ensures
        PROGRESS_EXTRACT_START as nat <= extract_permille(done, total)
            <= PROGRESS_EXTRACT_END as nat,
{
    if total > 0 {
        let capped = if done <= total {
            done
        } else {
            total
        };
        lemma_mul_inequality(capped as int, total as int, 130);
        lemma_div_is_ordered(capped as int * 130, total as int * 130, total as int);
        lemma_div_multiples_vanish(130, total as int);
    }
}

/// The extraction stage's report never decreases as entries complete.
pub proof fn lemma_extract_permille_monotone(d1: nat, d2: nat, total: nat)
    requires
        d1 <= d2,
    ensures
        extract_permille(d1, total) <= extract_permille(d2, total),
{
    if total > 0 {
        let c1 = if d1 <= total {
            d1
        } else {
            total
        };
        let c2 = if d2 <= total {
            d2
        } else {
            total
        };
        lemma_mul_inequality(c1 as int, c2 as int, 130);
        lemma_div_is_ordered(c1 as int * 130, c2 as int * 130, total as int);
    }
}

/// Computes [`download_permille`] on machine integers.
pub fn download_progress(received: u64, total: u64) -> (r: u32)
    ensures
        r as nat == download_permille(received as nat, total as nat),
{
    if total == 0 {
        PROGRESS_DOWNLOAD_START
    } else {
        let capped: u64 = if received <= total {
            received
        } else {
            total
        };
        let scaled: u128 = (capped as u128) * 600;
        let part: u128 = scaled / (total as u128);
        proof {
            lemma_mul_inequality(capped as int, total as int, 600);
            lemma_div_is_ordered(capped as int * 600, total as int * 600, total as int);
            lemma_div_multiples_vanish(600, total as int);
        }
        PROGRESS_DOWNLOAD_START + (part as u32)
    }
}

/// Computes [`extract_permille`] on machine integers.
pub fn extract_progress(done: usize, total: usize) -> (r: u32)
    ensures
        r as nat == extract_permille(done as nat, total as nat),
{
    if total == 0 {
        PROGRESS_EXTRACT_START
    } else {
        let capped: usize = if done <= total {
            done
        } else {
            total
        };
        let scaled: u128 = (capped as u128) * 130;
        let part: u128 = scaled / (total as u128);
        proof {
            lemma_mul_inequality(capped as int, total as int, 130);
            lemma_div_is_ordered(capped as int * 130, total as int * 130, total as int);
            lemma_div_multiples_vanish(130, total as int);
        }
        PROGRESS_EXTRACT_START + (part as u32)
    }
}

} // verus!
