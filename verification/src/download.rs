//! Download accounting: the state the streaming copy keeps while it moves
//! a response body into a file, chunk by chunk.
//!
//! The network read and the file write are the binary's work; the library
//! decides what each read means — another chunk to write, completion, or
//! a transport failure to report — and accounts for every byte.

use vstd::prelude::*;

verus! {

/// The expected total size: the response's declared content length, or
/// zero when the response does not declare one.
pub open spec fn spec_expected_total(content_length: Option<u64>) -> u64 {
    match content_length {
        Some(n) => n,
        None => 0u64,
    }
}

/// What one read of the response body yielded: a number of bytes (zero
/// at the end of the body), or a transport failure partway through.
#[derive(Clone, Copy, PartialEq, Eq, Structural, Debug)]
pub enum BodyRead {
    /// The read returned this many bytes; zero means the body is
    /// exhausted.
    Bytes(usize),
    /// The read failed: the transport broke before the body ended.
    TransportError,
}

/// What the copy loop does with one read from the response body.
#[derive(Clone, Copy, PartialEq, Eq, Structural, Debug)]
pub enum ReadAction {
    /// The read returned bytes: write this many bytes to the file.
    WriteChunk(usize),
    /// The read returned no bytes: the body is exhausted, finish.
    Finish,
    /// The transport failed mid-body: stop the copy and report the
    /// download as a network failure; the file holds only a prefix of
    /// the body.
    Fail,
}

/// Progress of one streaming download: the declared total and the number
/// of bytes copied so far.
pub struct DownloadProgress {
    /// The response's declared content length, or zero if undeclared.
    pub total: u64,
    /// Bytes copied to the file so far.
    pub downloaded: u64,
}

/// The sum of the chunk lengths of a body, read in order.
pub open spec fn spec_sum(chunks: Seq<usize>) -> int
    decreases chunks.len(),
{
    if chunks.len() == 0 {
        0
    } else {
        spec_sum(chunks.drop_last()) + chunks.last()
    }
}

impl DownloadProgress {
    /// Start accounting a download: nothing copied yet, and the reported
    /// total equals the declared content length when one is present.
    pub fn start(content_length: Option<u64>) -> (p: Self)
        ensures
            p.total == spec_expected_total(content_length),
            p.downloaded == 0,
    {
        let total: u64 = match content_length {
            Some(n) => n,
            None => 0,
        };
        DownloadProgress { total, downloaded: 0 }
    }

    /// Account one read of the response body: a read of zero bytes ends
    /// the copy; any other read is counted and its bytes are to be
    /// written to the file; a failed read ends the copy as a reported
    /// network failure.
    pub fn on_read(&mut self, ev: BodyRead) -> (act: ReadAction)
        requires
            ev matches BodyRead::Bytes(n) ==> old(self).downloaded + n <= u64::MAX,
        ensures
            final(self).total == old(self).total,
            ev matches BodyRead::Bytes(n) ==> {
                &&& n == 0 ==> act == ReadAction::Finish && final(self).downloaded == old(
                    self,
                ).downloaded
                &&& n != 0 ==> act == ReadAction::WriteChunk(n) && final(self).downloaded == old(
                    self,
                ).downloaded + n
            },
            ev == BodyRead::TransportError ==> act == ReadAction::Fail && final(self).downloaded
                == old(self).downloaded,
    {
        match ev {
            BodyRead::Bytes(n) => {
                if n == 0 {
                    ReadAction::Finish
                } else {
                    self.downloaded = self.downloaded + (n as u64);
                    ReadAction::WriteChunk(n)
                }
            },
            BodyRead::TransportError => ReadAction::Fail,
        }
    }

    /// Account a whole body given as its chunk lengths in order: the
    /// count afterwards has grown by exactly the body's length, so the
    /// bytes written to the file equal the bytes the body held.
    pub fn record_all(&mut self, chunks: &Vec<usize>)
        requires
            old(self).downloaded + spec_sum(chunks@) <= u64::MAX,
        ensures
            final(self).total == old(self).total,
            final(self).downloaded == old(self).downloaded + spec_sum(chunks@),
    {
        let mut i: usize = 0;
        while i < chunks.len()
            invariant
                0 <= i <= chunks@.len(),
                self.total == old(self).total,
                self.downloaded == old(self).downloaded + spec_sum(chunks@.subrange(0, i as int)),
                old(self).downloaded + spec_sum(chunks@) <= u64::MAX,
            decreases chunks@.len() - i,
        {
            proof {
                lemma_sum_prefix(chunks@, i as int);
                lemma_sum_prefix_bound(chunks@, i + 1);
            }
            let n = chunks[i];
            if n > 0 {
                let _ = self.on_read(BodyRead::Bytes(n));
            }
            proof {
                assert(self.downloaded == old(self).downloaded + spec_sum(
                    chunks@.subrange(0, i + 1),
                ));
            }
            i += 1;
        }
        proof {
            assert(chunks@.subrange(0, chunks@.len() as int) =~= chunks@);
        }
    }
}

/// The sum of a prefix grows by the next chunk.
proof fn lemma_sum_prefix(chunks: Seq<usize>, i: int)
    requires
        0 <= i < chunks.len(),
    ensures
        spec_sum(chunks.subrange(0, i + 1)) == spec_sum(chunks.subrange(0, i)) + chunks[i],
{
    assert(chunks.subrange(0, i + 1).drop_last() =~= chunks.subrange(0, i));
    assert(chunks.subrange(0, i + 1).last() == chunks[i]);
}

/// Every chunk length is nonnegative, so a prefix sums to no more than
/// the whole.
proof fn lemma_sum_prefix_bound(chunks: Seq<usize>, i: int)
    requires
        0 <= i <= chunks.len(),
    ensures
        spec_sum(chunks.subrange(0, i)) <= spec_sum(chunks),
        spec_sum(chunks.subrange(0, i)) >= 0,
    decreases chunks.len() - i,
{
    lemma_sum_nonneg(chunks.subrange(0, i));
    if i == chunks.len() {
        assert(chunks.subrange(0, i) =~= chunks);
    } else {
        lemma_sum_prefix(chunks, i);
        lemma_sum_prefix_bound(chunks, i + 1);
    }
}

/// Chunk sums are nonnegative.
proof fn lemma_sum_nonneg(chunks: Seq<usize>)
    ensures
        spec_sum(chunks) >= 0,
    decreases chunks.len(),
{
    if chunks.len() > 0 {
        lemma_sum_nonneg(chunks.drop_last());
    }
}

} // verus!
