//! The header search path: which arguments the C parser gets, given what was
//! found below the libraries root.
//!
//! The caller looks at the disk and reports, for each library directory, what
//! it found under the name of the header directory. This module decides what
//! follows from that: a library without header directory is passed over, one
//! whose header directory is a directory contributes a search path, and
//! anything else ends the scan.

use vstd::prelude::*;
use vstd::string::*;

verus! {

/// What was found in one library directory under the name of the header
/// directory.
#[derive(Clone, Debug)]
pub struct LibraryEntry {
    /// The path that was looked at.
    pub include_path: String,
    /// Whether anything exists at that path.
    pub exists: bool,
    /// Whether what exists there is a directory.
    pub is_dir: bool,
    /// The absolute form of the path, where it could be resolved.
    pub absolute: Option<String>,
}

/// A `LibraryEntry` as a mathematical value.
pub struct LibraryEntryView {
    pub include_path: Seq<char>,
    pub exists: bool,
    pub is_dir: bool,
    pub absolute: Option<Seq<char>>,
}

impl View for LibraryEntry {
    type V = LibraryEntryView;

    open spec fn view(&self) -> LibraryEntryView {
        LibraryEntryView {
            include_path: self.include_path@,
            exists: self.exists,
            is_dir: self.is_dir,
            absolute: match self.absolute {
                Some(path) => Some(path@),
                None => None,
            },
        }
    }
}

/// Why a scan of the libraries root ended without a search path.
#[derive(Debug)]
pub enum ScanError {
    /// Something that is no directory bears the name of the header directory.
    NotADirectory { path: String },
    /// A header directory has no absolute form.
    Unresolved { path: String },
}

/// A `ScanError` as a mathematical value.
pub enum ScanErrorView {
    NotADirectory { path: Seq<char> },
    Unresolved { path: Seq<char> },
}

impl View for ScanError {
    type V = ScanErrorView;

    open spec fn view(&self) -> ScanErrorView {
        match self {
            ScanError::NotADirectory { path } => ScanErrorView::NotADirectory { path: path@ },
            ScanError::Unresolved { path } => ScanErrorView::Unresolved { path: path@ },
        }
    }
}

/// What one library directory means for the search path.
pub enum Finding {
    /// The library has no header directory.
    Absent,
    /// The library's header directory, in absolute form.
    SearchPath(Seq<char>),
    /// The scan cannot go on.
    Fault(ScanErrorView),
}

/// Reads one entry.
pub open spec fn finding(entry: LibraryEntryView) -> Finding {
    if !entry.exists {
        Finding::Absent
    } else if !entry.is_dir {
        Finding::Fault(ScanErrorView::NotADirectory { path: entry.include_path })
    } else {
        match entry.absolute {
            Some(path) => Finding::SearchPath(path),
            None => Finding::Fault(ScanErrorView::Unresolved { path: entry.include_path }),
        }
    }
}

/// The parser argument that adds `directory` to the header search path.
pub open spec fn search_path_argument(directory: Seq<char>) -> Seq<char> {
    "--include-directory="@ + directory
}

/// The outcome of a scan: the parser arguments for all entries, in order, or
/// the fault of the first entry that has one.
pub open spec fn search_path_arguments(entries: Seq<LibraryEntryView>) -> Result<
    Seq<Seq<char>>,
    ScanErrorView,
>
    decreases entries.len(),
{
    if entries.len() == 0 {
        Ok(Seq::empty())
    } else {
        match search_path_arguments(entries.drop_last()) {
            Err(fault) => Err(fault),
            Ok(arguments) => match finding(entries.last()) {
                Finding::Absent => Ok(arguments),
                Finding::SearchPath(directory) => Ok(
                    arguments.push(search_path_argument(directory)),
                ),
                Finding::Fault(fault) => Err(fault),
            },
        }
    }
}

/// The entries of a vector as mathematical values.
pub open spec fn entry_views(entries: Seq<LibraryEntry>) -> Seq<LibraryEntryView> {
    entries.map_values(|entry: LibraryEntry| entry@)
}

/// The strings of a vector as sequences of characters.
pub open spec fn texts(strings: Seq<String>) -> Seq<Seq<char>> {
    strings.map_values(|string: String| string@)
}

/// Builds the parser argument for one header directory.
pub fn include_directory_arg(absolute_path: &str) -> (argument: String)
    ensures
        argument@ == search_path_argument(absolute_path@),
{
    let mut argument = String::from_str("--include-directory=");
    argument.append(absolute_path);
    argument
}

/// Turns the entries found below the libraries root into parser arguments.
///
/// Entries are read in order. The first one that exists without being a
/// directory, or that is a directory without absolute form, ends the scan
/// with its fault; entries that do not exist add nothing.
pub fn search_path_args(entries: &Vec<LibraryEntry>) -> (outcome: Result<Vec<String>, ScanError>)
    ensures
        match search_path_arguments(entry_views(entries@)) {
            Ok(arguments) => outcome matches Ok(found) && texts(found@) == arguments,
            Err(fault) => outcome matches Err(error) && error@ == fault,
        },
{
    let mut found: Vec<String> = Vec::new();
    let mut i: usize = 0;
    assert(entry_views(entries@).take(0) =~= Seq::empty());
    assert(texts(found@) =~= Seq::empty());
    while i < entries.len()
        invariant
            i <= entries.len(),
            search_path_arguments(entry_views(entries@).take(i as int)) == Ok::<
                Seq<Seq<char>>,
                ScanErrorView,
            >(texts(found@)),
        decreases entries.len() - i,
    {
        let entry = &entries[i];
        proof {
            let views = entry_views(entries@);
            assert(views.take(i + 1).drop_last() =~= views.take(i as int));
            assert(views.take(i + 1).last() == entry@);
        }
        if entry.exists {
            if !entry.is_dir {
                proof {
                    lemma_fault_is_kept(entry_views(entries@), i + 1);
                }
                return Err(ScanError::NotADirectory { path: entry.include_path.clone() });
            }
            match &entry.absolute {
                Some(path) => {
                    let argument = include_directory_arg(path.as_str());
                    proof {
                        assert(texts(found@.push(argument)) =~= texts(found@).push(argument@));
                    }
                    found.push(argument);
                },
                None => {
                    proof {
                        lemma_fault_is_kept(entry_views(entries@), i + 1);
                    }
                    return Err(ScanError::Unresolved { path: entry.include_path.clone() });
                },
            }
        }
        i += 1;
    }
    assert(entry_views(entries@).take(i as int) =~= entry_views(entries@));
    Ok(found)
}

/// A fault among the first `n` entries is the fault of the whole scan.
pub proof fn lemma_fault_is_kept(entries: Seq<LibraryEntryView>, n: int)
    requires
        0 <= n <= entries.len(),
        search_path_arguments(entries.take(n)) is Err,
    ensures
        search_path_arguments(entries) == search_path_arguments(entries.take(n)),
    decreases entries.len() - n,
{
    if n == entries.len() {
        assert(entries.take(n) =~= entries);
    } else {
        assert(entries.take(n + 1).drop_last() =~= entries.take(n));
        lemma_fault_is_kept(entries, n + 1);
    }
}

/// A library without header directory is passed over: wherever it stands
/// among the entries, the scan ends as it would without it.
pub proof fn lemma_absent_entry_is_skipped(entries: Seq<LibraryEntryView>, i: int)
    requires
        0 <= i < entries.len(),
        !entries[i].exists,
    ensures
        search_path_arguments(entries) == search_path_arguments(entries.remove(i)),
    decreases entries.len(),
{
    if i == entries.len() - 1 {
        assert(entries.remove(i) =~= entries.drop_last());
    } else {
        assert(entries.remove(i).drop_last() =~= entries.drop_last().remove(i));
        assert(entries.remove(i).last() == entries.last());
        lemma_absent_entry_is_skipped(entries.drop_last(), i);
    }
}

/// A scan succeeds exactly when no entry has a fault.
pub proof fn lemma_scan_succeeds_without_fault(entries: Seq<LibraryEntryView>)
    ensures
        search_path_arguments(entries) is Ok <==> forall|i: int|
            0 <= i < entries.len() ==> !(#[trigger] finding(entries[i]) is Fault),
    decreases entries.len(),
{
    if entries.len() > 0 {
        let front = entries.drop_last();
        lemma_scan_succeeds_without_fault(front);
        assert(forall|i: int| 0 <= i < front.len() ==> front[i] == entries[i]);
        if search_path_arguments(entries) is Ok {
            assert forall|i: int| 0 <= i < entries.len() implies !(#[trigger] finding(
                entries[i],
            ) is Fault) by {
                if i < front.len() {
                    assert(front[i] == entries[i]);
                }
            }
        }
    }
}

/// Something that bears the name of the header directory without being a
/// directory ends the scan with an error.
pub proof fn lemma_file_as_header_directory_is_fatal(entries: Seq<LibraryEntryView>, i: int)
    requires
        0 <= i < entries.len(),
        entries[i].exists,
        !entries[i].is_dir,
    ensures
        search_path_arguments(entries) is Err,
{
    lemma_scan_succeeds_without_fault(entries);
    assert(finding(entries[i]) is Fault);
}

} // verus!
