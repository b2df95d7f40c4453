//! Host operating system classification and branch dispatch.

use vstd::prelude::*;
use crate::bytes_util::bytes_eq;

verus! {

/// The platforms the installer distinguishes, read from the host OS
/// identifier string (as bytes).
#[derive(Clone, Copy, PartialEq, Eq, Structural, Debug)]
pub enum OsKind {
    Windows,
    Linux,
    Unsupported,
}

/// The identifier bytes of the Windows platform, `"windows"`.
pub open spec fn windows_id() -> Seq<u8> {
    seq![119u8, 105u8, 110u8, 100u8, 111u8, 119u8, 115u8]
}

/// The identifier bytes of the Linux platform, `"linux"`.
pub open spec fn linux_id() -> Seq<u8> {
    seq![108u8, 105u8, 110u8, 117u8, 120u8]
}

/// What a given OS identifier classifies as.
pub open spec fn spec_classify(os: Seq<u8>) -> OsKind {
    if os == windows_id() {
        OsKind::Windows
    } else if os == linux_id() {
        OsKind::Linux
    } else {
        OsKind::Unsupported
    }
}

/// Classify a host OS identifier (for example the bytes of
/// `std::env::consts::OS`) as one of the supported platforms.
pub fn classify_os(os: &[u8]) -> (k: OsKind)
    ensures
        k == spec_classify(os@),
{
    let windows: [u8; 7] = [119, 105, 110, 100, 111, 119, 115];
    let linux: [u8; 5] = [108, 105, 110, 117, 120];
    proof {
        assert(windows@ =~= windows_id());
        assert(linux@ =~= linux_id());
    }
    if bytes_eq(os, windows.as_slice()) {
        OsKind::Windows
    } else if bytes_eq(os, linux.as_slice()) {
        OsKind::Linux
    } else {
        OsKind::Unsupported
    }
}

/// One top-level step of an installer run.
#[derive(Clone, Copy, PartialEq, Eq, Structural, Debug)]
pub enum InstallStep {
    /// Ensure a native compiler toolchain is present.
    InstallToolchain,
    /// Ensure the runtime redistributable is present (Windows only).
    InstallRedistributable,
    /// Download the companion tool's archive, unpack it, update PATH.
    InstallCompanionTool,
    /// Print the unsupported-OS message; nothing is installed.
    ReportUnsupported,
}

/// The steps the Windows branch runs, in order.
pub open spec fn windows_branch() -> Seq<InstallStep> {
    seq![
        InstallStep::InstallToolchain,
        InstallStep::InstallRedistributable,
        InstallStep::InstallCompanionTool,
    ]
}

/// The steps the Linux branch runs, in order.
pub open spec fn linux_branch() -> Seq<InstallStep> {
    seq![InstallStep::InstallToolchain, InstallStep::InstallCompanionTool]
}

/// The steps run for an unsupported host: only the report.
pub open spec fn unsupported_branch() -> Seq<InstallStep> {
    seq![InstallStep::ReportUnsupported]
}

/// The steps the dispatcher selects for a platform.
pub open spec fn spec_plan(k: OsKind) -> Seq<InstallStep> {
    match k {
        OsKind::Windows => windows_branch(),
        OsKind::Linux => linux_branch(),
        OsKind::Unsupported => unsupported_branch(),
    }
}

/// Select the top-level steps for a classified platform.
pub fn install_plan(k: OsKind) -> (steps: Vec<InstallStep>)
    ensures
        steps@ == spec_plan(k),
{
    match k {
        OsKind::Windows => {
            let v = vec![
                InstallStep::InstallToolchain,
                InstallStep::InstallRedistributable,
                InstallStep::InstallCompanionTool,
            ];
            proof {
                assert(v@ =~= windows_branch());
            }
            v
        },
        OsKind::Linux => {
            let v = vec![InstallStep::InstallToolchain, InstallStep::InstallCompanionTool];
            proof {
                assert(v@ =~= linux_branch());
            }
            v
        },
        OsKind::Unsupported => {
            let v = vec![InstallStep::ReportUnsupported];
            proof {
                assert(v@ =~= unsupported_branch());
            }
            v
        },
    }
}

/// The dispatcher runs exactly one branch: for the Windows identifier the
/// Windows branch alone, for the Linux identifier the Linux branch alone,
/// and for every other identifier neither platform branch, only the
/// unsupported-OS report.
pub proof fn lemma_dispatch_exactly_one(os: Seq<u8>)
    ensures
        (spec_plan(spec_classify(os)) == windows_branch()) <==> os == windows_id(),
        (spec_plan(spec_classify(os)) == linux_branch()) <==> os == linux_id(),
        (spec_plan(spec_classify(os)) == unsupported_branch()) <==> (os != windows_id() && os
            != linux_id()),
        windows_branch() != linux_branch(),
        windows_branch() != unsupported_branch(),
        linux_branch() != unsupported_branch(),
{
    assert(windows_id() != linux_id());
    assert(windows_branch().len() != linux_branch().len());
    assert(windows_branch().len() != unsupported_branch().len());
    assert(linux_branch().len() != unsupported_branch().len());
}

} // verus!
