//! Plans the one-time installation of the Gradle wrapper distribution into
//! the local cache directory.
//!
//! Nothing here touches the file system: the caller says whether the cache
//! directory is already there and carries out the steps it is handed.

use vstd::prelude::*;
use crate::archive::{
    all_readable, contents, entry_views, first_unreadable, read_archive, zip_directory, ArchiveEntry,
    ArchiveError,
};
use crate::text::{ends_with, same_text, text_ends_with};

verus! {

/// The kind of machine the distribution is installed on.
#[derive(Debug, Clone, Copy, PartialEq, Eq, Structural)]
pub enum Platform {
    Posix,
    Windows,
}

/// Permission bits of the launcher script: `rwxr-xr-x`.
pub const LAUNCHER_MODE: u32 = 0o755;

/// One step of an installation. Paths are relative to the cache directory.
#[derive(Debug, Clone, PartialEq, Eq)]
pub enum FsAction {
    /// Create the directory and any missing parents.
    CreateDir { path: String },
    /// Create any missing parents, then write the whole file.
    WriteFile { path: String, data: Vec<u8> },
    /// Set the permission bits of the file.
    SetMode { path: String, mode: u32 },
}

/// A step as plain values.
pub enum FsActionView {
    CreateDir { path: Seq<char> },
    WriteFile { path: Seq<char>, data: Seq<u8> },
    SetMode { path: Seq<char>, mode: u32 },
}

impl View for FsAction {
    type V = FsActionView;

    open spec fn view(&self) -> FsActionView {
        match *self {
            FsAction::CreateDir { path } => FsActionView::CreateDir { path: path@ },
            FsAction::WriteFile { path, data } => FsActionView::WriteFile { path: path@, data: data@ },
            FsAction::SetMode { path, mode } => FsActionView::SetMode { path: path@, mode },
        }
    }
}

/// The steps of a plan as plain values.
pub open spec fn plan_view(plan: Seq<FsAction>) -> Seq<FsActionView> {
    plan.map_values(|a: FsAction| a@)
}

/// Name of the launcher script on POSIX systems.
pub open spec fn launcher() -> Seq<char> {
    "gradlew"@
}

/// An entry whose name ends in a slash stands for a directory.
pub open spec fn is_directory_name(name: Seq<char>) -> bool {
    ends_with(name, "/"@)
}

/// The launcher and every `.sh` or `.bat` file are text scripts.
pub open spec fn is_text_script(name: Seq<char>) -> bool {
    name == launcher() || ends_with(name, ".sh"@) || ends_with(name, ".bat"@)
}

/// The data with every carriage return that is directly followed by a line
/// feed taken out, scanning from the left.
pub open spec fn strip_crlf(data: Seq<u8>) -> Seq<u8>
    decreases data.len(),
{
    if data.len() == 0 {
        Seq::empty()
    } else if data.len() >= 2 && data[0] == 13 && data[1] == 10 {
        seq![10u8] + strip_crlf(data.subrange(2, data.len() as int))
    } else {
        seq![data[0]] + strip_crlf(data.subrange(1, data.len() as int))
    }
}

/// What is written for an entry: text scripts get their line endings
/// normalised on POSIX systems, everything else is written as stored.
pub open spec fn installed_data(name: Seq<char>, data: Seq<u8>, platform: Platform) -> Seq<u8> {
    if platform == Platform::Posix && is_text_script(name) {
        strip_crlf(data)
    } else {
        data
    }
}

/// The step that installs one entry.
pub open spec fn entry_action(name: Seq<char>, data: Seq<u8>, platform: Platform) -> FsActionView {
    if is_directory_name(name) {
        FsActionView::CreateDir { path: name }
    } else {
        FsActionView::WriteFile { path: name, data: installed_data(name, data, platform) }
    }
}

/// Whether the distribution holds the launcher script.
pub open spec fn has_launcher(entries: Seq<(Seq<char>, Seq<u8>)>) -> bool {
    exists|i: int| 0 <= i < entries.len() && (#[trigger] entries[i]).0 == launcher()
}

/// The steps that install each entry, in archive order.
pub open spec fn entry_steps(entries: Seq<(Seq<char>, Seq<u8>)>, platform: Platform) -> Seq<
    FsActionView,
> {
    Seq::new(entries.len(), |i: int| entry_action(entries[i].0, entries[i].1, platform))
}

/// The whole installation: one step per entry, then, on POSIX systems and
/// where the launcher is among the entries, making it executable.
pub open spec fn extraction_steps(entries: Seq<(Seq<char>, Seq<u8>)>, platform: Platform) -> Seq<
    FsActionView,
> {
    if platform == Platform::Posix && has_launcher(entries) {
        entry_steps(entries, platform).push(
            FsActionView::SetMode { path: launcher(), mode: LAUNCHER_MODE },
        )
    } else {
        entry_steps(entries, platform)
    }
}

/// Tests whether an entry name stands for a directory.
pub fn is_directory_entry(name: &str) -> (r: bool)
    ensures
        r == is_directory_name(name@),
{
    text_ends_with(name, "/")
}

/// Tests whether an entry is a text script.
pub fn is_script_entry(name: &str) -> (r: bool)
    ensures
        r == is_text_script(name@),
{
    same_text(name, "gradlew") || text_ends_with(name, ".sh") || text_ends_with(name, ".bat")
}

/// Replaces every CR LF pair by a single LF.
pub fn normalize_line_endings(data: &Vec<u8>) -> (out: Vec<u8>)
    ensures
        out@ == strip_crlf(data@),
{
    let mut out: Vec<u8> = Vec::new();
    let mut i: usize = 0;
    assert(data@.subrange(0, data.len() as int) == data@);
    assert(out@ + strip_crlf(data@) == strip_crlf(data@));
    while i < data.len()
        invariant
            i <= data.len(),
            out@ + strip_crlf(data@.subrange(i as int, data.len() as int)) == strip_crlf(data@),
        decreases data.len() - i,
    {
        let ghost rest = data@.subrange(i as int, data.len() as int);
        if data[i] == 13 && i + 1 < data.len() && data[i + 1] == 10 {
            proof {
                assert(rest.subrange(2, rest.len() as int) == data@.subrange(i + 2, data.len() as int));
                assert(out@.push(10u8) + strip_crlf(rest.subrange(2, rest.len() as int)) == out@
                    + strip_crlf(rest));
            }
            out.push(10);
            i += 2;
        } else {
            proof {
                assert(rest.subrange(1, rest.len() as int) == data@.subrange(i + 1, data.len() as int));
                assert(out@.push(data@[i as int]) + strip_crlf(rest.subrange(1, rest.len() as int))
                    == out@ + strip_crlf(rest));
            }
            out.push(data[i]);
            i += 1;
        }
    }
    assert(out@ + Seq::<u8>::empty() == out@);
    out
}

/// The step that installs one entry of the distribution.
pub fn plan_entry(entry: &ArchiveEntry, platform: Platform) -> (action: FsAction)
    ensures
        action@ == entry_action(entry.name@, entry.data@, platform),
{
    let path = entry.name.clone();
    if is_directory_entry(entry.name.as_str()) {
        FsAction::CreateDir { path }
    } else if platform == Platform::Posix && is_script_entry(entry.name.as_str()) {
        FsAction::WriteFile { path, data: normalize_line_endings(&entry.data) }
    } else {
        FsAction::WriteFile { path, data: entry.data.clone() }
    }
}

/// Tests whether the launcher script is among the entries.
pub fn contains_launcher(entries: &Vec<ArchiveEntry>) -> (r: bool)
    ensures
        r == has_launcher(entry_views(entries@)),
{
    let mut i: usize = 0;
    while i < entries.len()
        invariant
            i <= entries.len(),
            forall|j: int| 0 <= j < i ==> (#[trigger] entries@[j]).name@ != launcher(),
        decreases entries.len() - i,
    {
        if same_text(entries[i].name.as_str(), "gradlew") {
            assert(entry_views(entries@)[i as int].0 == launcher());
            return true;
        }
        i += 1;
    }
    assert forall|j: int| 0 <= j < entry_views(entries@).len() implies (#[trigger] entry_views(
        entries@,
    )[j]).0 != launcher() by {
        assert(entries@[j].name@ != launcher());
    }
    false
}

/// Plans the installation of a distribution that has been read: one step per
/// entry in archive order, then the step that makes the launcher executable
/// where that applies.
pub fn extraction_plan(entries: &Vec<ArchiveEntry>, platform: Platform) -> (plan: Vec<FsAction>)
    ensures
        plan_view(plan@) == extraction_steps(entry_views(entries@), platform),
{
    let mut plan: Vec<FsAction> = Vec::new();
    let mut i: usize = 0;
    while i < entries.len()
        invariant
            i <= entries.len(),
            plan@.len() == i,
            forall|j: int| 0 <= j < i ==> (#[trigger] plan@[j])@ == entry_action(
                entries@[j].name@,
                entries@[j].data@,
                platform,
            ),
        decreases entries.len() - i,
    {
        plan.push(plan_entry(&entries[i], platform));
        i += 1;
    }
    assert(plan_view(plan@) =~= entry_steps(entry_views(entries@), platform));
    if platform == Platform::Posix && contains_launcher(entries) {
        let ghost before = plan@;
        plan.push(FsAction::SetMode { path: "gradlew".to_owned(), mode: LAUNCHER_MODE });
        assert(plan_view(plan@) =~= plan_view(before).push(plan@[before.len() as int]@));
    }
    plan
}

/// Decides what has to be done so that the wrapper distribution is in the
/// cache directory.
///
/// Where the cache directory is already there, nothing is to be done and the
/// archive is not looked at. Otherwise the archive is read and the steps that
/// install it are returned; this fails exactly when the archive cannot be
/// read.
pub fn ensure_gradle_wrapper(cache_present: bool, archive: Vec<u8>, platform: Platform) -> (r: Result<
    Vec<FsAction>,
    ArchiveError,
>)
    ensures
        cache_present ==> (r matches Ok(plan) && plan@.len() == 0),
        !cache_present ==> match r {
            Ok(plan) => zip_directory(archive@) matches Some(dir) && all_readable(dir) && plan_view(
                plan@,
            ) == extraction_steps(contents(dir), platform),
            Err(ArchiveError::Invalid) => zip_directory(archive@) is None,
            Err(ArchiveError::Unreadable { index }) => zip_directory(archive@) matches Some(dir)
                && first_unreadable(dir, index as int),
        },
{
    if cache_present {
        return Ok(Vec::new());
    }
    match read_archive(archive) {
        Ok(entries) => Ok(extraction_plan(&entries, platform)),
        Err(e) => Err(e),
    }
}

} // verus!
