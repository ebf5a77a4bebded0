//! Progress accounting of the streaming download: one state machine fed a
//! byte count per received chunk. The transport itself (HTTP, the chunk
//! stream) runs at the boundary and is handed the events computed here.

use vstd::prelude::*;
use crate::progress::{download_permille, download_progress, ProgressEvent};
use crate::strings::{append_chars, append_str_chars, chars_to_string, dec_rep, u64_to_chars};

verus! {

/// The message reported with a download progress event.
pub open spec fn download_message_chars(received: nat, total: nat) -> Seq<char> {
    "Downloading... "@ + dec_rep(received) + " / "@ + dec_rep(total) + " bytes"@
}

/// Byte accounting of one download: how much the server promised and how
/// much has arrived.
pub struct DownloadTracker {
    /// Total bytes the server reported; zero when it reported none.
    pub total: u64,
    /// Bytes received so far.
    pub received: u64,
}

impl DownloadTracker {
    /// A tracker for a download of `content_length` bytes (zero when the
    /// server did not report a length).
    pub fn new(content_length: u64) -> (t: DownloadTracker)
        ensures
            t.total == content_length,
            t.received == 0,
    {
        DownloadTracker { total: content_length, received: 0 }
    }

    /// Accounts one received chunk. With a known total this reports the
    /// download stage's progress; with an unknown total nothing is emitted
    /// and the fraction stays at the stage's last known value.
    pub fn on_chunk(&mut self, chunk_len: u64) -> (r: Option<ProgressEvent>)
        ensures
            final(self).total == old(self).total,
            final(self).received == if old(self).received + chunk_len <= u64::MAX {
                old(self).received + chunk_len
            } else {
                u64::MAX as int
            },
            old(self).total == 0 ==> r is None,
            old(self).total > 0 ==> (r matches Some(ev) && ev.permille as nat
                == download_permille(final(self).received as nat, old(self).total as nat)
                && ev.message@ == download_message_chars(
                final(self).received as nat,
                old(self).total as nat,
            )),
    {
        if chunk_len <= u64::MAX - self.received {
            self.received = self.received + chunk_len;
        } else {
            self.received = u64::MAX;
        }
        if self.total == 0 {
            None
        } else {
            let permille = download_progress(self.received, self.total);
            let mut msg: Vec<char> = Vec::new();
            append_str_chars(&mut msg, "Downloading... ");
            let rec_digits = u64_to_chars(self.received);
            append_chars(&mut msg, &rec_digits);
            append_str_chars(&mut msg, " / ");
            let total_digits = u64_to_chars(self.total);
            append_chars(&mut msg, &total_digits);
            append_str_chars(&mut msg, " bytes");
            Some(ProgressEvent { permille, message: chars_to_string(&msg) })
        }
    }
}

} // verus!
