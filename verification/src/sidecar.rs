//! What the host does with each line the Node sidecar writes on its stdout.

use vstd::prelude::*;

use crate::json::{is_json, parse_json};
use crate::text::{trim, trim_white_space};

verus! {

/// The sidecar executable's file name on Windows and elsewhere.
pub fn sidecar_exe_name(windows: bool) -> (res: &'static str)
    ensures
        windows ==> res@ == "dahara-fuel-calc-sidecar-x86_64-pc-windows-msvc.exe"@,
        !windows ==> res@ == "dahara-fuel-calc-sidecar"@,
{
    if windows {
        "dahara-fuel-calc-sidecar-x86_64-pc-windows-msvc.exe"
    } else {
        "dahara-fuel-calc-sidecar"
    }
}

/// A place where the sidecar executable is looked for.
#[derive(Clone, Copy, Debug, PartialEq, Eq, Structural)]
pub enum SidecarLocation {
    /// `<resource dir>/binaries/`
    ResourceBinaries,
    /// `<resource dir>/`
    ResourceDir,
    /// The resource directory's parent.
    ResourceParent,
    /// `<resource dir>/resources/binaries/`
    ResourceResourcesBinaries,
    /// `<current dir>/binaries/`
    CurrentDirBinaries,
    /// The directory of the running executable.
    ExeDir,
}

/// The order in which the sidecar is looked for.
pub open spec fn sidecar_search_order_spec() -> Seq<SidecarLocation> {
    seq![
        SidecarLocation::ResourceBinaries,
        SidecarLocation::ResourceDir,
        SidecarLocation::ResourceParent,
        SidecarLocation::ResourceResourcesBinaries,
        SidecarLocation::CurrentDirBinaries,
        SidecarLocation::ExeDir,
    ]
}

/// The places the sidecar is looked for, first choice first.
pub fn sidecar_search_order() -> (res: Vec<SidecarLocation>)
    ensures
        res@ == sidecar_search_order_spec(),
{
    let res = vec![
        SidecarLocation::ResourceBinaries,
        SidecarLocation::ResourceDir,
        SidecarLocation::ResourceParent,
        SidecarLocation::ResourceResourcesBinaries,
        SidecarLocation::CurrentDirBinaries,
        SidecarLocation::ExeDir,
    ];
    assert(res@ =~= sidecar_search_order_spec());
    res
}

/// The first candidate that exists, given whether each one does.
pub fn first_existing(exists: &[bool]) -> (res: Option<usize>)
    ensures
        match res {
            Some(i) => i < exists@.len() && exists@[i as int] && forall|j: int|
                0 <= j < i ==> !exists@[j],
            None => forall|j: int| 0 <= j < exists@.len() ==> !exists@[j],
        },
{
    let mut i: usize = 0;
    while i < exists.len()
        invariant
            i <= exists@.len(),
            forall|j: int| 0 <= j < i ==> !exists@[j],
        decreases exists@.len() - i,
    {
        if exists[i] {
            return Some(i);
        }
        i = i + 1;
    }
    None
}

/// The handling of one stdout line of the sidecar.
pub enum PumpStep {
    /// A blank line: nothing to do.
    Skip,
    /// A JSON document to forward to the webview as it is.
    Emit(serde_json::Value),
    /// Text that is not JSON: report it and go on.
    Malformed(serde_json::Error),
}

/// Decides what to do with a line: blank lines (after trimming white space) are
/// skipped, JSON documents are forwarded, anything else is reported.
pub fn pump_line(line: &str) -> (res: PumpStep)
    ensures
        trim(line@).len() == 0 ==> res is Skip,
        trim(line@).len() > 0 ==> ((res is Emit) <==> is_json(trim(line@))),
        trim(line@).len() > 0 && !is_json(trim(line@)) ==> res is Malformed,
{
    let line = trim_white_space(line);
    if line.unicode_len() == 0 {
        return PumpStep::Skip;
    }
    match parse_json(line) {
        Ok(payload) => PumpStep::Emit(payload),
        Err(err) => PumpStep::Malformed(err),
    }
}

} // verus!
