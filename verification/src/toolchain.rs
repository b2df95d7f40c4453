//! Toolchain and redistributable installation, modelled as small state
//! machines.
//!
//! The binary carries out each phase (probe the PATH for an executable,
//! download, spawn an installer, append to PATH) and reports what
//! happened; the library decides, from the phase and the report alone,
//! what comes next.  Every terminal phase says how the run ended.

use vstd::prelude::*;

verus! {

/// What the binary observed while carrying out a phase: a probe finds
/// the executable or does not; any other phase succeeds or fails.
#[derive(Clone, Copy, PartialEq, Eq, Structural, Debug)]
pub enum PhaseEvent {
    Found,
    Missing,
    Succeeded,
    Failed,
}

/// The phases of the Windows toolchain installation.
#[derive(Clone, Copy, PartialEq, Eq, Structural, Debug)]
pub enum WinToolchainPhase {
    /// Probe the PATH for the compiler executable.
    CheckCompiler,
    /// Download the vendor installer.
    DownloadInstaller,
    /// Run the downloaded installer silently.
    RunInstaller,
    /// Append the toolchain's binary directory to PATH.
    UpdatePath,
    /// Terminal: the compiler was already present; nothing was done.
    AlreadyInstalled,
    /// Terminal: the toolchain was installed.
    Installed,
    /// Terminal: the download failed; the rest of the run is skipped.
    DownloadFailed,
    /// Terminal: the installer failed; the rest of the run is skipped.
    InstallFailed,
}

/// The Windows toolchain machine's transition: what phase follows a
/// phase once the binary reports its event.  Terminal phases absorb
/// every event.
pub open spec fn spec_win_toolchain_next(p: WinToolchainPhase, ev: PhaseEvent) -> WinToolchainPhase {
    match p {
        WinToolchainPhase::CheckCompiler => if ev == PhaseEvent::Found {
            WinToolchainPhase::AlreadyInstalled
        } else {
            WinToolchainPhase::DownloadInstaller
        },
        WinToolchainPhase::DownloadInstaller => if ev == PhaseEvent::Succeeded {
            WinToolchainPhase::RunInstaller
        } else {
            WinToolchainPhase::DownloadFailed
        },
        WinToolchainPhase::RunInstaller => if ev == PhaseEvent::Succeeded {
            WinToolchainPhase::UpdatePath
        } else {
            WinToolchainPhase::InstallFailed
        },
        // The run counts as installed whether or not the PATH update
        // succeeded; the failure is only reported.
        WinToolchainPhase::UpdatePath => WinToolchainPhase::Installed,
        WinToolchainPhase::AlreadyInstalled => p,
        WinToolchainPhase::Installed => p,
        WinToolchainPhase::DownloadFailed => p,
        WinToolchainPhase::InstallFailed => p,
    }
}

/// Whether a phase is terminal: the run is over and no further work is
/// performed.
pub open spec fn spec_win_terminal(p: WinToolchainPhase) -> bool {
    p == WinToolchainPhase::AlreadyInstalled || p == WinToolchainPhase::Installed || p
        == WinToolchainPhase::DownloadFailed || p == WinToolchainPhase::InstallFailed
}

/// Advance the Windows toolchain machine by one reported event.
pub fn win_toolchain_next(p: WinToolchainPhase, ev: PhaseEvent) -> (next: WinToolchainPhase)
    ensures
        next == spec_win_toolchain_next(p, ev),
{
    match p {
        WinToolchainPhase::CheckCompiler => if matches!(ev, PhaseEvent::Found) {
            WinToolchainPhase::AlreadyInstalled
        } else {
            WinToolchainPhase::DownloadInstaller
        },
        WinToolchainPhase::DownloadInstaller => if matches!(ev, PhaseEvent::Succeeded) {
            WinToolchainPhase::RunInstaller
        } else {
            WinToolchainPhase::DownloadFailed
        },
        WinToolchainPhase::RunInstaller => if matches!(ev, PhaseEvent::Succeeded) {
            WinToolchainPhase::UpdatePath
        } else {
            WinToolchainPhase::InstallFailed
        },
        WinToolchainPhase::UpdatePath => WinToolchainPhase::Installed,
        other => other,
    }
}

/// The phase the machine is in after a run of reported events.
pub open spec fn spec_win_phase_after(p: WinToolchainPhase, events: Seq<PhaseEvent>) -> WinToolchainPhase
    decreases events.len(),
{
    if events.len() == 0 {
        p
    } else {
        spec_win_phase_after(spec_win_toolchain_next(p, events[0]), events.drop_first())
    }
}

/// When the probe finds the compiler already resolvable, the whole run
/// is a no-op: after the probe the machine stands in the terminal
/// already-installed phase, and no prefix of the run ever reaches the
/// phase that downloads or the phases that spawn the installer.
pub proof fn lemma_win_toolchain_noop_when_found(events: Seq<PhaseEvent>)
    requires
        events.len() >= 1,
        events[0] == PhaseEvent::Found,
    ensures
        spec_win_phase_after(WinToolchainPhase::CheckCompiler, events)
            == WinToolchainPhase::AlreadyInstalled,
        forall|i: int|
            0 <= i <= events.len() ==> {
                let ph = #[trigger] spec_win_phase_after(
                    WinToolchainPhase::CheckCompiler,
                    events.take(i),
                );
                ph != WinToolchainPhase::DownloadInstaller && ph != WinToolchainPhase::RunInstaller
                    && ph != WinToolchainPhase::UpdatePath
            },
{
    assert forall|i: int| 1 <= i <= events.len() implies spec_win_phase_after(
        WinToolchainPhase::CheckCompiler,
        events.take(i),
    ) == WinToolchainPhase::AlreadyInstalled by {
        lemma_win_absorbed(events.take(i));
    }
    assert(events.take(events.len() as int) =~= events);
    assert(spec_win_phase_after(WinToolchainPhase::CheckCompiler, events.take(0))
        == WinToolchainPhase::CheckCompiler);
}

/// A run whose first event is the probe finding the compiler ends in the
/// already-installed phase, whatever follows.
proof fn lemma_win_absorbed(events: Seq<PhaseEvent>)
    requires
        events.len() >= 1,
        events[0] == PhaseEvent::Found,
    ensures
        spec_win_phase_after(WinToolchainPhase::CheckCompiler, events)
            == WinToolchainPhase::AlreadyInstalled,
{
    lemma_win_terminal_stays(WinToolchainPhase::AlreadyInstalled, events.drop_first());
}

/// A terminal phase absorbs every further event.
proof fn lemma_win_terminal_stays(p: WinToolchainPhase, events: Seq<PhaseEvent>)
    requires
        spec_win_terminal(p),
    ensures
        spec_win_phase_after(p, events) == p,
    decreases events.len(),
{
    if events.len() > 0 {
        lemma_win_terminal_stays(p, events.drop_first());
    }
}

/// The phases of the runtime redistributable installation (Windows).
#[derive(Clone, Copy, PartialEq, Eq, Structural, Debug)]
pub enum RedistPhase {
    /// Probe for the runtime component.
    CheckRuntime,
    /// Download the redistributable's installer.
    DownloadInstaller,
    /// Run the downloaded installer silently.
    RunInstaller,
    /// Terminal: the runtime was already present; nothing was done.
    AlreadyPresent,
    /// Terminal: the redistributable was installed.
    Installed,
    /// Terminal: the download failed; the rest of the run is skipped.
    DownloadFailed,
    /// Terminal: the installer failed; the rest of the run is skipped.
    InstallFailed,
}

/// The redistributable machine's transition.  Terminal phases absorb
/// every event.
pub open spec fn spec_redist_next(p: RedistPhase, ev: PhaseEvent) -> RedistPhase {
    match p {
        RedistPhase::CheckRuntime => if ev == PhaseEvent::Found {
            RedistPhase::AlreadyPresent
        } else {
            RedistPhase::DownloadInstaller
        },
        RedistPhase::DownloadInstaller => if ev == PhaseEvent::Succeeded {
            RedistPhase::RunInstaller
        } else {
            RedistPhase::DownloadFailed
        },
        RedistPhase::RunInstaller => if ev == PhaseEvent::Succeeded {
            RedistPhase::Installed
        } else {
            RedistPhase::InstallFailed
        },
        RedistPhase::AlreadyPresent => p,
        RedistPhase::Installed => p,
        RedistPhase::DownloadFailed => p,
        RedistPhase::InstallFailed => p,
    }
}

/// Advance the redistributable machine by one reported event.
pub fn redist_next(p: RedistPhase, ev: PhaseEvent) -> (next: RedistPhase)
    ensures
        next == spec_redist_next(p, ev),
{
    match p {
        RedistPhase::CheckRuntime => if matches!(ev, PhaseEvent::Found) {
            RedistPhase::AlreadyPresent
        } else {
            RedistPhase::DownloadInstaller
        },
        RedistPhase::DownloadInstaller => if matches!(ev, PhaseEvent::Succeeded) {
            RedistPhase::RunInstaller
        } else {
            RedistPhase::DownloadFailed
        },
        RedistPhase::RunInstaller => if matches!(ev, PhaseEvent::Succeeded) {
            RedistPhase::Installed
        } else {
            RedistPhase::InstallFailed
        },
        other => other,
    }
}

/// The phases of the Linux toolchain installation: the compiler and the
/// linker are probed in turn, and whichever is missing is installed
/// through the system package manager.
#[derive(Clone, Copy, PartialEq, Eq, Structural, Debug)]
pub enum LinuxToolchainPhase {
    /// Probe the PATH for the compiler.
    CheckCompiler,
    /// Install the compiler through the package manager.
    InstallCompiler,
    /// Probe the PATH for the linker.
    CheckLinker,
    /// Install the linker through the package manager.
    InstallLinker,
    /// Terminal: compiler and linker are present.
    Completed,
    /// Terminal: a package-manager invocation exited non-zero; the rest
    /// of the run is skipped.
    PackageFailed,
}

/// The Linux toolchain machine's transition.  Terminal phases absorb
/// every event.
pub open spec fn spec_linux_toolchain_next(p: LinuxToolchainPhase, ev: PhaseEvent) -> LinuxToolchainPhase {
    match p {
        LinuxToolchainPhase::CheckCompiler => if ev == PhaseEvent::Found {
            LinuxToolchainPhase::CheckLinker
        } else {
            LinuxToolchainPhase::InstallCompiler
        },
        LinuxToolchainPhase::InstallCompiler => if ev == PhaseEvent::Succeeded {
            LinuxToolchainPhase::CheckLinker
        } else {
            LinuxToolchainPhase::PackageFailed
        },
        LinuxToolchainPhase::CheckLinker => if ev == PhaseEvent::Found {
            LinuxToolchainPhase::Completed
        } else {
            LinuxToolchainPhase::InstallLinker
        },
        LinuxToolchainPhase::InstallLinker => if ev == PhaseEvent::Succeeded {
            LinuxToolchainPhase::Completed
        } else {
            LinuxToolchainPhase::PackageFailed
        },
        LinuxToolchainPhase::Completed => p,
        LinuxToolchainPhase::PackageFailed => p,
    }
}

/// Advance the Linux toolchain machine by one reported event.
pub fn linux_toolchain_next(p: LinuxToolchainPhase, ev: PhaseEvent) -> (next: LinuxToolchainPhase)
    ensures
        next == spec_linux_toolchain_next(p, ev),
{
    match p {
        LinuxToolchainPhase::CheckCompiler => if matches!(ev, PhaseEvent::Found) {
            LinuxToolchainPhase::CheckLinker
        } else {
            LinuxToolchainPhase::InstallCompiler
        },
        LinuxToolchainPhase::InstallCompiler => if matches!(ev, PhaseEvent::Succeeded) {
            LinuxToolchainPhase::CheckLinker
        } else {
            LinuxToolchainPhase::PackageFailed
        },
        LinuxToolchainPhase::CheckLinker => if matches!(ev, PhaseEvent::Found) {
            LinuxToolchainPhase::Completed
        } else {
            LinuxToolchainPhase::InstallLinker
        },
        LinuxToolchainPhase::InstallLinker => if matches!(ev, PhaseEvent::Succeeded) {
            LinuxToolchainPhase::Completed
        } else {
            LinuxToolchainPhase::PackageFailed
        },
        other => other,
    }
}

/// The phase the Linux machine is in after a run of reported events.
pub open spec fn spec_linux_phase_after(p: LinuxToolchainPhase, events: Seq<PhaseEvent>) -> LinuxToolchainPhase
    decreases events.len(),
{
    if events.len() == 0 {
        p
    } else {
        spec_linux_phase_after(spec_linux_toolchain_next(p, events[0]), events.drop_first())
    }
}

/// When both probes find their executables, the Linux run spawns no
/// package-manager process: no prefix of the run reaches an install
/// phase, and after the two probes the machine stands completed.
pub proof fn lemma_linux_toolchain_noop_when_found(events: Seq<PhaseEvent>)
    requires
        events.len() >= 2,
        events[0] == PhaseEvent::Found,
        events[1] == PhaseEvent::Found,
    ensures
        spec_linux_phase_after(LinuxToolchainPhase::CheckCompiler, events)
            == LinuxToolchainPhase::Completed,
        forall|i: int|
            0 <= i <= events.len() ==> {
                let ph = #[trigger] spec_linux_phase_after(
                    LinuxToolchainPhase::CheckCompiler,
                    events.take(i),
                );
                ph != LinuxToolchainPhase::InstallCompiler && ph
                    != LinuxToolchainPhase::InstallLinker
            },
{
    assert forall|i: int| 2 <= i <= events.len() implies spec_linux_phase_after(
        LinuxToolchainPhase::CheckCompiler,
        events.take(i),
    ) == LinuxToolchainPhase::Completed by {
        let run = events.take(i);
        assert(run[0] == PhaseEvent::Found);
        assert(run.drop_first()[0] == events[1]);
        assert(spec_linux_phase_after(LinuxToolchainPhase::CheckCompiler, run)
            == spec_linux_phase_after(LinuxToolchainPhase::CheckLinker, run.drop_first()));
        assert(spec_linux_phase_after(LinuxToolchainPhase::CheckLinker, run.drop_first())
            == spec_linux_phase_after(
            LinuxToolchainPhase::Completed,
            run.drop_first().drop_first(),
        ));
        lemma_linux_terminal_stays(
            LinuxToolchainPhase::Completed,
            run.drop_first().drop_first(),
        );
    }
    assert(events.take(events.len() as int) =~= events);
    assert(spec_linux_phase_after(LinuxToolchainPhase::CheckCompiler, events.take(0))
        == LinuxToolchainPhase::CheckCompiler);
    let one = events.take(1);
    assert(one[0] == PhaseEvent::Found);
    assert(spec_linux_phase_after(LinuxToolchainPhase::CheckCompiler, one)
        == spec_linux_phase_after(LinuxToolchainPhase::CheckLinker, one.drop_first()));
    assert(one.drop_first().len() == 0);
    assert(spec_linux_phase_after(LinuxToolchainPhase::CheckLinker, one.drop_first())
        == LinuxToolchainPhase::CheckLinker);
}

/// A terminal phase of the Linux machine absorbs every further event.
proof fn lemma_linux_terminal_stays(p: LinuxToolchainPhase, events: Seq<PhaseEvent>)
    requires
        p == LinuxToolchainPhase::Completed || p == LinuxToolchainPhase::PackageFailed,
    ensures
        spec_linux_phase_after(p, events) == p,
    decreases events.len(),
{
    if events.len() > 0 {
        lemma_linux_terminal_stays(p, events.drop_first());
    }
}

} // verus!
