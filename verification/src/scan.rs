//! What a run scans: the fixed-disk volumes picked from the host's volume
//! list, the fixed auxiliary directories, and the stage order of a run.

use vstd::prelude::*;
use vstd::string::StringExecFns;

use crate::sig::views_of;

verus! {

/// How the host classifies a volume.
#[derive(Clone, Copy, PartialEq, Eq, Structural, Debug)]
pub enum VolumeKind {
    HardDisk,
    SolidState,
    Removable,
    Other,
}

/// One enumerated volume: its mount point and its kind.
pub struct VolumeInfo {
    pub mount: String,
    pub kind: VolumeKind,
}

/// Whether a volume of kind `k` is scanned: only fixed hard disks and
/// solid-state disks are; removable, optical and network volumes are not.
pub open spec fn is_fixed_kind(k: VolumeKind) -> bool {
    k == VolumeKind::HardDisk || k == VolumeKind::SolidState
}

/// The mount points of the fixed-disk volumes in `vols`, in order.
pub open spec fn fixed_mounts(vols: Seq<VolumeInfo>) -> Seq<Seq<char>>
    decreases vols.len(),
{
    if vols.len() == 0 {
        Seq::empty()
    } else if is_fixed_kind(vols.last().kind) {
        fixed_mounts(vols.drop_last()) + seq![vols.last().mount@]
    } else {
        fixed_mounts(vols.drop_last())
    }
}

/// Picks the volumes to scan: exactly the fixed-disk ones, in enumeration
/// order. An empty volume list yields an empty scan list.
pub fn select_fixed_volumes(vols: &Vec<VolumeInfo>) -> (r: Vec<String>)
    ensures
        views_of(r@) == fixed_mounts(vols@),
{
    let mut out: Vec<String> = Vec::new();
    let mut i: usize = 0;
    while i < vols.len()
        invariant
            i <= vols@.len(),
            views_of(out@) == fixed_mounts(vols@.take(i as int)),
        decreases vols@.len() - i,
    {
        let v = &vols[i];
        if v.kind == VolumeKind::HardDisk || v.kind == VolumeKind::SolidState {
            out.push(v.mount.clone());
        }
        proof {
            assert(vols@.take(i + 1).drop_last() =~= vols@.take(i as int));
            assert(vols@.take(i + 1).last() == vols@[i as int]);
            assert(views_of(out@) =~= fixed_mounts(vols@.take(i + 1)));
        }
        i = i + 1;
    }
    proof {
        assert(vols@.take(vols@.len() as int) =~= vols@);
    }
    out
}

/// The user profile directory the auxiliary paths hang off: the given one,
/// or the default profile when none is known.
pub open spec fn profile_dir(profile: Option<String>) -> Seq<char> {
    match profile {
        Option::Some(p) => p@,
        Option::None => "C:\\Users\\Default"@,
    }
}

/// The fixed list of auxiliary directories to scan after the volumes: the
/// user's roaming application data, the user's local temporary directory,
/// the shared application data, and the system temporary directory.
pub fn aux_scan_dirs(profile: &Option<String>) -> (r: Vec<String>)
    ensures
        r@.len() == 4,
        r@[0]@ == profile_dir(*profile) + "\\AppData\\Roaming"@,
        r@[1]@ == profile_dir(*profile) + "\\AppData\\Local\\Temp"@,
        r@[2]@ == "C:\\ProgramData"@,
        r@[3]@ == "C:\\Windows\\Temp"@,
{
    let base = match profile {
        Option::Some(p) => p.clone(),
        Option::None => String::from_str("C:\\Users\\Default"),
    };
    let mut out: Vec<String> = Vec::new();
    out.push(base.clone().concat("\\AppData\\Roaming"));
    out.push(base.concat("\\AppData\\Local\\Temp"));
    out.push(String::from_str("C:\\ProgramData"));
    out.push(String::from_str("C:\\Windows\\Temp"));
    out
}

/// The stages of one run, in order. A run ends on `Summary`, or on `Abort`
/// when the platform check fails.
#[derive(Clone, Copy, PartialEq, Eq, Structural, Debug)]
pub enum Stage {
    Intro,
    PlatformCheck,
    ProcessScan,
    FileScanVolumes,
    FileScanAux,
    RegistryCleanup,
    Summary,
    Abort,
}

/// The stage that follows `s`. Only the platform check branches; every other
/// transition is unconditional, and `Summary` and `Abort` are terminal.
pub open spec fn spec_next_stage(s: Stage, platform_supported: bool) -> Stage {
    match s {
        Stage::Intro => Stage::PlatformCheck,
        Stage::PlatformCheck => if platform_supported {
            Stage::ProcessScan
        } else {
            Stage::Abort
        },
        Stage::ProcessScan => Stage::FileScanVolumes,
        Stage::FileScanVolumes => Stage::FileScanAux,
        Stage::FileScanAux => Stage::RegistryCleanup,
        Stage::RegistryCleanup => Stage::Summary,
        Stage::Summary => Stage::Summary,
        Stage::Abort => Stage::Abort,
    }
}

/// Advances the run by one stage.
pub fn next_stage(s: Stage, platform_supported: bool) -> (r: Stage)
    ensures
        r == spec_next_stage(s, platform_supported),
{
    match s {
        Stage::Intro => Stage::PlatformCheck,
        Stage::PlatformCheck => if platform_supported {
            Stage::ProcessScan
        } else {
            Stage::Abort
        },
        Stage::ProcessScan => Stage::FileScanVolumes,
        Stage::FileScanVolumes => Stage::FileScanAux,
        Stage::FileScanAux => Stage::RegistryCleanup,
        Stage::RegistryCleanup => Stage::Summary,
        Stage::Summary => Stage::Summary,
        Stage::Abort => Stage::Abort,
    }
}

/// The stage transitions take no volume input: however many volumes were
/// enumerated — none included — the auxiliary-directory scan follows the
/// volume scan, and the registry cleanup and the summary follow in turn.
pub proof fn law_scan_order_fixed(platform_supported: bool)
    ensures
        spec_next_stage(Stage::FileScanVolumes, platform_supported) == Stage::FileScanAux,
        spec_next_stage(Stage::FileScanAux, platform_supported) == Stage::RegistryCleanup,
        spec_next_stage(Stage::RegistryCleanup, platform_supported) == Stage::Summary,
{
}

} // verus!
