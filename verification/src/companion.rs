//! Installing the companion tool: the destination directories its
//! archive is unpacked into, the directory that goes on the PATH, and
//! the flow of the whole download-and-extract run.
//!
//! Paths are byte strings; the binary turns them into the platform's
//! path type when it performs the work.

use vstd::prelude::*;
use crate::bytes_util::append_bytes;
use crate::path_env::contains_bytes;
use crate::path_env::contains_sub;
use crate::path_env::spec_updated_path;
use crate::path_env::updated_path;
use crate::toolchain::PhaseEvent;

verus! {

/// The name of the folder the companion tool is extracted into:
/// `"neit"`.
pub open spec fn tool_folder() -> Seq<u8> {
    seq![110u8, 101u8, 105u8, 116u8]
}

/// The per-user prefix of the Windows destination: `"C:/Users/"`.
pub open spec fn windows_users_prefix() -> Seq<u8> {
    seq![67u8, 58u8, 47u8, 85u8, 115u8, 101u8, 114u8, 115u8, 47u8]
}

/// The system-wide prefix of the Linux destination: `"/usr/local/"`.
pub open spec fn linux_prefix() -> Seq<u8> {
    seq![47u8, 117u8, 115u8, 114u8, 47u8, 108u8, 111u8, 99u8, 97u8, 108u8, 47u8]
}

/// The suffix of the directory the tool's executables land in:
/// `"/bin"`.
pub open spec fn bin_suffix() -> Seq<u8> {
    seq![47u8, 98u8, 105u8, 110u8]
}

/// The Windows destination root for a user: their home folder's tool
/// directory, `C:/Users/<username>/neit`.
pub open spec fn spec_windows_root(username: Seq<u8>) -> Seq<u8> {
    windows_users_prefix() + username + seq![47u8] + tool_folder()
}

/// The Linux destination root: the fixed system-wide tool directory,
/// `/usr/local/neit`.
pub open spec fn spec_linux_root() -> Seq<u8> {
    linux_prefix() + tool_folder()
}

/// Compute the Windows destination root from the platform username.
pub fn windows_root(username: &[u8]) -> (r: Vec<u8>)
    ensures
        r@ == spec_windows_root(username@),
{
    let prefix: [u8; 9] = [67, 58, 47, 85, 115, 101, 114, 115, 47];
    let folder: [u8; 4] = [110, 101, 105, 116];
    let mut r: Vec<u8> = Vec::new();
    append_bytes(&mut r, prefix.as_slice());
    append_bytes(&mut r, username);
    r.push(47);
    append_bytes(&mut r, folder.as_slice());
    proof {
        assert(prefix@ =~= windows_users_prefix());
        assert(folder@ =~= tool_folder());
        assert(r@ =~= spec_windows_root(username@));
    }
    r
}

/// Compute the Linux destination root.
pub fn linux_root() -> (r: Vec<u8>)
    ensures
        r@ == spec_linux_root(),
{
    let prefix: [u8; 11] = [47, 117, 115, 114, 47, 108, 111, 99, 97, 108, 47];
    let folder: [u8; 4] = [110, 101, 105, 116];
    let mut r: Vec<u8> = Vec::new();
    append_bytes(&mut r, prefix.as_slice());
    append_bytes(&mut r, folder.as_slice());
    proof {
        assert(prefix@ =~= linux_prefix());
        assert(folder@ =~= tool_folder());
        assert(r@ =~= spec_linux_root());
    }
    r
}

/// The directory of a destination root that goes on the PATH: its
/// `bin` subdirectory.
pub open spec fn spec_bin_dir(root: Seq<u8>) -> Seq<u8> {
    root + bin_suffix()
}

/// Compute the PATH entry for a destination root.
pub fn bin_dir(root: &[u8]) -> (r: Vec<u8>)
    ensures
        r@ == spec_bin_dir(root@),
{
    let suffix: [u8; 4] = [47, 98, 105, 110];
    let mut r: Vec<u8> = Vec::new();
    append_bytes(&mut r, root);
    append_bytes(&mut r, suffix.as_slice());
    proof {
        assert(suffix@ =~= bin_suffix());
        assert(r@ =~= spec_bin_dir(root@));
    }
    r
}

/// What the PATH step of the install decides: either the directory is
/// already on the PATH and the value stays as it is, or the appended
/// value is to be set in the environment.
pub enum PathDecision {
    /// The directory already occurs in the PATH value; set nothing.
    AlreadyPresent,
    /// The directory is missing; set the PATH to this value, the old
    /// one with the separator and the directory appended.
    SetTo { value: Vec<u8> },
}

/// Decide the PATH step for the tool's bin directory: append it,
/// separator-joined, exactly when the current value does not already
/// hold it.
pub fn path_decision(current: &Vec<u8>, dir: &Vec<u8>, sep: u8) -> (d: PathDecision)
    ensures
        contains_bytes(current@, dir@) ==> d is AlreadyPresent,
        !contains_bytes(current@, dir@) ==> (d matches PathDecision::SetTo { value } && value@
            == spec_updated_path(current@, dir@, sep)),
{
    if contains_sub(current.as_slice(), dir.as_slice()) {
        PathDecision::AlreadyPresent
    } else {
        PathDecision::SetTo { value: updated_path(current, dir, sep) }
    }
}

/// The phases of one companion-tool installation.
#[derive(Clone, Copy, PartialEq, Eq, Structural, Debug)]
pub enum CompanionPhase {
    /// Download the platform's archive.
    Download,
    /// Unpack every archive entry under the destination root.
    Extract,
    /// Put the tool's bin directory on the PATH unless it is there.
    UpdatePath,
    /// Terminal: installed; the PATH already held the directory.
    InstalledPathKept,
    /// Terminal: installed; the directory was appended to the PATH.
    InstalledPathAppended,
    /// Terminal: the download failed; the rest of the run is skipped.
    DownloadFailed,
    /// Terminal: the archive could not be unpacked; the rest of the
    /// run is skipped.
    ExtractFailed,
}

/// The companion machine's transition: what phase follows a phase once
/// the binary reports its event.  Terminal phases absorb every event.
pub open spec fn spec_companion_next(p: CompanionPhase, ev: PhaseEvent) -> CompanionPhase {
    match p {
        CompanionPhase::Download => if ev == PhaseEvent::Succeeded {
            CompanionPhase::Extract
        } else {
            CompanionPhase::DownloadFailed
        },
        CompanionPhase::Extract => if ev == PhaseEvent::Succeeded {
            CompanionPhase::UpdatePath
        } else {
            CompanionPhase::ExtractFailed
        },
        CompanionPhase::UpdatePath => if ev == PhaseEvent::Found {
            CompanionPhase::InstalledPathKept
        } else {
            CompanionPhase::InstalledPathAppended
        },
        CompanionPhase::InstalledPathKept => p,
        CompanionPhase::InstalledPathAppended => p,
        CompanionPhase::DownloadFailed => p,
        CompanionPhase::ExtractFailed => p,
    }
}

/// Whether a phase of the companion machine is terminal: the run is
/// over and no further work is performed.
pub open spec fn spec_companion_terminal(p: CompanionPhase) -> bool {
    p == CompanionPhase::InstalledPathKept || p == CompanionPhase::InstalledPathAppended || p
        == CompanionPhase::DownloadFailed || p == CompanionPhase::ExtractFailed
}

/// The phase the companion machine is in after a run of reported
/// events.
pub open spec fn spec_companion_phase_after(p: CompanionPhase, events: Seq<PhaseEvent>) -> CompanionPhase
    decreases events.len(),
{
    if events.len() == 0 {
        p
    } else {
        spec_companion_phase_after(spec_companion_next(p, events[0]), events.drop_first())
    }
}

/// Advance the companion machine by one reported event.
pub fn companion_next(p: CompanionPhase, ev: PhaseEvent) -> (next: CompanionPhase)
    ensures
        next == spec_companion_next(p, ev),
{
    match p {
        CompanionPhase::Download => if matches!(ev, PhaseEvent::Succeeded) {
            CompanionPhase::Extract
        } else {
            CompanionPhase::DownloadFailed
        },
        CompanionPhase::Extract => if matches!(ev, PhaseEvent::Succeeded) {
            CompanionPhase::UpdatePath
        } else {
            CompanionPhase::ExtractFailed
        },
        CompanionPhase::UpdatePath => if matches!(ev, PhaseEvent::Found) {
            CompanionPhase::InstalledPathKept
        } else {
            CompanionPhase::InstalledPathAppended
        },
        other => other,
    }
}

/// Running the machine over two runs in turn is running it over their
/// concatenation.
proof fn lemma_companion_split(p: CompanionPhase, s1: Seq<PhaseEvent>, s2: Seq<PhaseEvent>)
    ensures
        spec_companion_phase_after(p, s1 + s2) == spec_companion_phase_after(
            spec_companion_phase_after(p, s1),
            s2,
        ),
    decreases s1.len(),
{
    if s1.len() == 0 {
        assert(s1 + s2 =~= s2);
    } else {
        assert((s1 + s2).drop_first() =~= s1.drop_first() + s2);
        assert((s1 + s2)[0] == s1[0]);
        lemma_companion_split(spec_companion_next(p, s1[0]), s1.drop_first(), s2);
    }
}

/// A terminal phase of the companion machine absorbs every further
/// event.
proof fn lemma_companion_terminal_stays(p: CompanionPhase, events: Seq<PhaseEvent>)
    requires
        spec_companion_terminal(p),
    ensures
        spec_companion_phase_after(p, events) == p,
    decreases events.len(),
{
    if events.len() > 0 {
        lemma_companion_terminal_stays(p, events.drop_first());
    }
}

/// In any run of the companion install, the machine stands in the
/// phase that updates the PATH at most once: whatever the PATH step
/// reports, the run is over afterwards, so the destination's PATH
/// entry is appended at most once per install.
pub proof fn lemma_companion_path_update_at_most_once(events: Seq<PhaseEvent>)
    ensures
        forall|i: int, j: int|
            (0 <= i <= j <= events.len() && #[trigger] spec_companion_phase_after(
                CompanionPhase::Download,
                events.take(i),
            ) == CompanionPhase::UpdatePath && #[trigger] spec_companion_phase_after(
                CompanionPhase::Download,
                events.take(j),
            ) == CompanionPhase::UpdatePath) ==> i == j,
{
    assert forall|i: int, j: int|
        (0 <= i < j <= events.len() && spec_companion_phase_after(
            CompanionPhase::Download,
            events.take(i),
        ) == CompanionPhase::UpdatePath) implies spec_companion_phase_after(
        CompanionPhase::Download,
        events.take(j),
    ) != CompanionPhase::UpdatePath by {
        let rest = events.subrange(i, j);
        assert(events.take(j) =~= events.take(i) + rest);
        lemma_companion_split(CompanionPhase::Download, events.take(i), rest);
        let after_step = spec_companion_next(CompanionPhase::UpdatePath, rest[0]);
        assert(spec_companion_terminal(after_step));
        lemma_companion_terminal_stays(after_step, rest.drop_first());
        assert(spec_companion_phase_after(CompanionPhase::UpdatePath, rest) == after_step);
    }
}

} // verus!
