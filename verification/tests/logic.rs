//! Tests of the installer's decision logic: dispatch, PATH handling,
//! download accounting and the installer state machines.

use neit_installer::bytes_util::bytes_eq;
use neit_installer::companion::bin_dir;
use neit_installer::companion::companion_next;
use neit_installer::companion::linux_root;
use neit_installer::companion::path_decision;
use neit_installer::companion::windows_root;
use neit_installer::companion::CompanionPhase;
use neit_installer::companion::PathDecision;
use neit_installer::download::BodyRead;
use neit_installer::download::DownloadProgress;
use neit_installer::download::ReadAction;
use neit_installer::os::classify_os;
use neit_installer::os::install_plan;
use neit_installer::os::InstallStep;
use neit_installer::os::OsKind;
use neit_installer::path_env::contains_sub;
use neit_installer::path_env::updated_path;
use neit_installer::toolchain::linux_toolchain_next;
use neit_installer::toolchain::redist_next;
use neit_installer::toolchain::win_toolchain_next;
use neit_installer::toolchain::LinuxToolchainPhase;
use neit_installer::toolchain::PhaseEvent;
use neit_installer::toolchain::RedistPhase;
use neit_installer::toolchain::WinToolchainPhase;

#[test]
fn classify_known_platforms() {
    assert_eq!(classify_os(b"windows"), OsKind::Windows);
    assert_eq!(classify_os(b"linux"), OsKind::Linux);
}

#[test]
fn classify_unsupported_platforms() {
    assert_eq!(classify_os(b"macos"), OsKind::Unsupported);
    assert_eq!(classify_os(b"freebsd"), OsKind::Unsupported);
    assert_eq!(classify_os(b""), OsKind::Unsupported);
    assert_eq!(classify_os(b"Windows"), OsKind::Unsupported);
}

#[test]
fn dispatcher_selects_exactly_one_branch() {
    let windows_steps = install_plan(OsKind::Windows);
    assert_eq!(
        windows_steps,
        vec![
            InstallStep::InstallToolchain,
            InstallStep::InstallRedistributable,
            InstallStep::InstallCompanionTool,
        ]
    );
    let linux_steps = install_plan(OsKind::Linux);
    assert_eq!(
        linux_steps,
        vec![InstallStep::InstallToolchain, InstallStep::InstallCompanionTool]
    );
    let other_steps = install_plan(OsKind::Unsupported);
    assert_eq!(other_steps, vec![InstallStep::ReportUnsupported]);
    assert!(!other_steps.contains(&InstallStep::InstallToolchain));
    assert!(!other_steps.contains(&InstallStep::InstallCompanionTool));
}

#[test]
fn bytes_eq_compares_contents() {
    assert!(bytes_eq(b"gcc", b"gcc"));
    assert!(!bytes_eq(b"gcc", b"gc"));
    assert!(!bytes_eq(b"gcc", b"gcd"));
    assert!(bytes_eq(b"", b""));
}

#[test]
fn substring_search() {
    assert!(contains_sub(b"/usr/bin:/usr/local/bin", b"/usr/local/bin"));
    assert!(contains_sub(b"/usr/bin", b""));
    assert!(!contains_sub(b"/usr/bin", b"/opt"));
    assert!(!contains_sub(b"ab", b"abc"));
}

#[test]
fn path_update_appends_when_missing() {
    let current = b"/usr/bin".to_vec();
    let dir = b"/usr/local/neit/bin".to_vec();
    let updated = updated_path(&current, &dir, b':');
    assert_eq!(updated, b"/usr/bin:/usr/local/neit/bin".to_vec());
}

#[test]
fn path_update_keeps_present_entry() {
    let current = b"/usr/bin:/usr/local/neit/bin".to_vec();
    let dir = b"/usr/local/neit/bin".to_vec();
    let updated = updated_path(&current, &dir, b':');
    assert_eq!(updated, current);
}

#[test]
fn path_update_is_idempotent() {
    let current = b"C:\\Windows\\system32".to_vec();
    let dir = b"C:\\TDM-GCC-64\\bin".to_vec();
    let once = updated_path(&current, &dir, b';');
    let twice = updated_path(&once, &dir, b';');
    assert_eq!(once.len(), twice.len());
    assert_eq!(once, twice);
}

#[test]
fn path_decision_appends_exactly_once() {
    let current = b"/usr/bin".to_vec();
    let dir = b"/usr/local/neit/bin".to_vec();
    match path_decision(&current, &dir, b':') {
        PathDecision::SetTo { value } => {
            assert_eq!(value, b"/usr/bin:/usr/local/neit/bin".to_vec());
            match path_decision(&value, &dir, b':') {
                PathDecision::AlreadyPresent => {}
                PathDecision::SetTo { .. } => panic!("second update must be a no-op"),
            }
        }
        PathDecision::AlreadyPresent => panic!("first update must append"),
    }
}

#[test]
fn destination_roots() {
    assert_eq!(windows_root(b"alice"), b"C:/Users/alice/neit".to_vec());
    assert_eq!(linux_root(), b"/usr/local/neit".to_vec());
    assert_eq!(bin_dir(b"/usr/local/neit"), b"/usr/local/neit/bin".to_vec());
    assert_eq!(
        bin_dir(b"C:/Users/alice/neit"),
        b"C:/Users/alice/neit/bin".to_vec()
    );
}

#[test]
fn progress_reports_declared_total() {
    let with_length = DownloadProgress::start(Some(4096));
    assert_eq!(with_length.total, 4096);
    assert_eq!(with_length.downloaded, 0);
    let without_length = DownloadProgress::start(None);
    assert_eq!(without_length.total, 0);
}

#[test]
fn progress_counts_every_chunk() {
    let mut progress = DownloadProgress::start(Some(70000));
    assert_eq!(progress.on_read(BodyRead::Bytes(32768)), ReadAction::WriteChunk(32768));
    assert_eq!(progress.on_read(BodyRead::Bytes(32768)), ReadAction::WriteChunk(32768));
    assert_eq!(progress.on_read(BodyRead::Bytes(4464)), ReadAction::WriteChunk(4464));
    assert_eq!(progress.on_read(BodyRead::Bytes(0)), ReadAction::Finish);
    assert_eq!(progress.downloaded, 70000);
}

#[test]
fn progress_reports_transport_failure() {
    let mut progress = DownloadProgress::start(Some(70000));
    assert_eq!(progress.on_read(BodyRead::Bytes(32768)), ReadAction::WriteChunk(32768));
    assert_eq!(progress.on_read(BodyRead::TransportError), ReadAction::Fail);
    // the failure ends the copy without counting further bytes
    assert_eq!(progress.downloaded, 32768);
    assert_eq!(progress.total, 70000);
}

#[test]
fn progress_sums_a_whole_body() {
    let mut progress = DownloadProgress::start(Some(100));
    let chunks = vec![40usize, 0, 25, 35];
    progress.record_all(&chunks);
    assert_eq!(progress.downloaded, 100);
    assert_eq!(progress.total, 100);
}

#[test]
fn win_toolchain_skips_install_when_compiler_found() {
    let next = win_toolchain_next(WinToolchainPhase::CheckCompiler, PhaseEvent::Found);
    assert_eq!(next, WinToolchainPhase::AlreadyInstalled);
    // terminal: later events change nothing
    assert_eq!(
        win_toolchain_next(next, PhaseEvent::Succeeded),
        WinToolchainPhase::AlreadyInstalled
    );
}

#[test]
fn win_toolchain_full_install() {
    let mut phase = WinToolchainPhase::CheckCompiler;
    phase = win_toolchain_next(phase, PhaseEvent::Missing);
    assert_eq!(phase, WinToolchainPhase::DownloadInstaller);
    phase = win_toolchain_next(phase, PhaseEvent::Succeeded);
    assert_eq!(phase, WinToolchainPhase::RunInstaller);
    phase = win_toolchain_next(phase, PhaseEvent::Succeeded);
    assert_eq!(phase, WinToolchainPhase::UpdatePath);
    phase = win_toolchain_next(phase, PhaseEvent::Succeeded);
    assert_eq!(phase, WinToolchainPhase::Installed);
}

#[test]
fn win_toolchain_stops_after_failures() {
    assert_eq!(
        win_toolchain_next(WinToolchainPhase::DownloadInstaller, PhaseEvent::Failed),
        WinToolchainPhase::DownloadFailed
    );
    assert_eq!(
        win_toolchain_next(WinToolchainPhase::RunInstaller, PhaseEvent::Failed),
        WinToolchainPhase::InstallFailed
    );
}

#[test]
fn redist_skips_install_when_runtime_found() {
    assert_eq!(
        redist_next(RedistPhase::CheckRuntime, PhaseEvent::Found),
        RedistPhase::AlreadyPresent
    );
}

#[test]
fn redist_full_install() {
    let mut phase = RedistPhase::CheckRuntime;
    phase = redist_next(phase, PhaseEvent::Missing);
    assert_eq!(phase, RedistPhase::DownloadInstaller);
    phase = redist_next(phase, PhaseEvent::Succeeded);
    assert_eq!(phase, RedistPhase::RunInstaller);
    phase = redist_next(phase, PhaseEvent::Succeeded);
    assert_eq!(phase, RedistPhase::Installed);
    assert_eq!(
        redist_next(RedistPhase::DownloadInstaller, PhaseEvent::Failed),
        RedistPhase::DownloadFailed
    );
    assert_eq!(
        redist_next(RedistPhase::RunInstaller, PhaseEvent::Failed),
        RedistPhase::InstallFailed
    );
}

#[test]
fn linux_toolchain_noop_when_both_found() {
    let mut phase = LinuxToolchainPhase::CheckCompiler;
    phase = linux_toolchain_next(phase, PhaseEvent::Found);
    assert_eq!(phase, LinuxToolchainPhase::CheckLinker);
    phase = linux_toolchain_next(phase, PhaseEvent::Found);
    assert_eq!(phase, LinuxToolchainPhase::Completed);
}

#[test]
fn linux_toolchain_installs_missing_components() {
    let mut phase = LinuxToolchainPhase::CheckCompiler;
    phase = linux_toolchain_next(phase, PhaseEvent::Missing);
    assert_eq!(phase, LinuxToolchainPhase::InstallCompiler);
    phase = linux_toolchain_next(phase, PhaseEvent::Succeeded);
    assert_eq!(phase, LinuxToolchainPhase::CheckLinker);
    phase = linux_toolchain_next(phase, PhaseEvent::Missing);
    assert_eq!(phase, LinuxToolchainPhase::InstallLinker);
    phase = linux_toolchain_next(phase, PhaseEvent::Succeeded);
    assert_eq!(phase, LinuxToolchainPhase::Completed);
    assert_eq!(
        linux_toolchain_next(LinuxToolchainPhase::InstallCompiler, PhaseEvent::Failed),
        LinuxToolchainPhase::PackageFailed
    );
    assert_eq!(
        linux_toolchain_next(LinuxToolchainPhase::InstallLinker, PhaseEvent::Failed),
        LinuxToolchainPhase::PackageFailed
    );
}

#[test]
fn companion_machine_runs_to_path_update() {
    let mut phase = CompanionPhase::Download;
    phase = companion_next(phase, PhaseEvent::Succeeded);
    assert_eq!(phase, CompanionPhase::Extract);
    phase = companion_next(phase, PhaseEvent::Succeeded);
    assert_eq!(phase, CompanionPhase::UpdatePath);
    assert_eq!(
        companion_next(phase, PhaseEvent::Found),
        CompanionPhase::InstalledPathKept
    );
    assert_eq!(
        companion_next(phase, PhaseEvent::Missing),
        CompanionPhase::InstalledPathAppended
    );
    assert_eq!(
        companion_next(CompanionPhase::Download, PhaseEvent::Failed),
        CompanionPhase::DownloadFailed
    );
    assert_eq!(
        companion_next(CompanionPhase::Extract, PhaseEvent::Failed),
        CompanionPhase::ExtractFailed
    );
}
