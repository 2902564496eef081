use crate::error::{ErrorModel, PluginError};
use crate::text::{
    characters, ends_with, has_suffix, is_last_position, join, last_position, same_text, texts,
};
use vstd::prelude::*;

verus! {

/// One entry of the plugins directory, as a listing of it reports it.
#[derive(Debug, Clone, PartialEq, Eq)]
pub struct DirectoryEntry {
    pub name: String,
    pub is_file: bool,
    pub is_dir: bool,
}

/// One package to unpack: its file in the plugins directory, and the
/// directory below the plugins directory that it is unpacked into.
#[derive(Debug, Clone, PartialEq, Eq)]
pub struct InstallStep {
    pub archive: String,
    pub destination: String,
}

/// A package that could not be unpacked, with the reason.
#[derive(Debug, Clone, PartialEq, Eq)]
pub struct InstallFailure {
    pub archive: String,
    pub reason: String,
}

/// The suffix by which a plugin package is known: `.tgz`.
pub open spec fn archive_suffix() -> Seq<char> {
    seq!['.', 't', 'g', 'z']
}

/// The name of the metadata file that a file manager leaves in a directory:
/// `.DS_Store`.
pub open spec fn metadata_name() -> Seq<char> {
    seq!['.', 'D', 'S', '_', 'S', 't', 'o', 'r', 'e']
}

/// The file name without the archive suffix, where it has one.
pub open spec fn archive_stem(file: Seq<char>) -> Seq<char> {
    if ends_with(file, archive_suffix()) {
        file.subrange(0, file.len() - archive_suffix().len())
    } else {
        file
    }
}

/// The name of the directory that a package is unpacked into: the file name
/// without the archive suffix and without its last `-` and what follows it.
pub open spec fn destination_of(file: Seq<char>) -> Seq<char> {
    let stem = archive_stem(file);
    if stem.contains('-') {
        stem.subrange(0, choose|i: int| is_last_position(stem, '-', i))
    } else {
        stem
    }
}

/// Whether an entry is a package that waits to be unpacked: a regular file
/// whose name has the archive suffix.
pub open spec fn is_pending(entry: DirectoryEntry) -> bool {
    ends_with(entry.name@, archive_suffix()) && entry.is_file
}

/// Whether an entry is the directory of an installed plugin.
pub open spec fn is_plugin_folder(entry: DirectoryEntry) -> bool {
    entry.name@ != metadata_name() && entry.is_dir
}

/// The names of the packages among `entries`, in the order of the listing.
pub open spec fn pending_names(entries: Seq<DirectoryEntry>) -> Seq<Seq<char>>
    decreases entries.len(),
{
    if entries.len() == 0 {
        Seq::empty()
    } else if is_pending(entries.last()) {
        pending_names(entries.drop_last()).push(entries.last().name@)
    } else {
        pending_names(entries.drop_last())
    }
}

/// The names of the plugin directories among `entries`, in the order of the
/// listing.
pub open spec fn folder_names(entries: Seq<DirectoryEntry>) -> Seq<Seq<char>>
    decreases entries.len(),
{
    if entries.len() == 0 {
        Seq::empty()
    } else if is_plugin_folder(entries.last()) {
        folder_names(entries.drop_last()).push(entries.last().name@)
    } else {
        folder_names(entries.drop_last())
    }
}

/// Whether a file name has the archive suffix.
pub fn is_archive_name(name: &str) -> (b: bool)
    ensures
        b == ends_with(name@, archive_suffix()),
{
    proof {
        reveal_strlit(".tgz");
        assert(".tgz"@ =~= archive_suffix());
    }
    has_suffix(name, ".tgz")
}

/// The name of the directory that the package `file` is unpacked into.
pub fn destination_name(file: &str) -> (r: String)
    ensures
        r@ == destination_of(file@),
{
    let n = characters(file).len();
    let stem = if is_archive_name(file) {
        file.substring_char(0, n - 4)
    } else {
        file
    };
    match last_position(stem, '-') {
        Some(i) => {
            proof {
                let c = choose|c: int| is_last_position(stem@, '-', c);
                assert(is_last_position(stem@, '-', i as int));
                assert(is_last_position(stem@, '-', c));
                assert(c == i);
            }
            stem.substring_char(0, i).to_owned()
        },
        None => stem.to_owned(),
    }
}

/// The packages that wait to be unpacked, in the order of the listing.
pub fn pending_archives(entries: &Vec<DirectoryEntry>) -> (r: Vec<String>)
    ensures
        texts(r@) == pending_names(entries@),
{
    let mut out: Vec<String> = Vec::new();
    let mut i: usize = 0;
    assert(entries@.take(0) =~= Seq::<DirectoryEntry>::empty());
    assert(texts(out@) =~= Seq::<Seq<char>>::empty());
    while i < entries.len()
        invariant
            i <= entries.len(),
            texts(out@) == pending_names(entries@.take(i as int)),
        decreases entries.len() - i,
    {
        let entry = &entries[i];
        let ghost before = out@;
        proof {
            let next = entries@.take(i + 1);
            assert(next.drop_last() =~= entries@.take(i as int));
            assert(next.last() == entries@[i as int]);
        }
        if entry.is_file && is_archive_name(entry.name.as_str()) {
            out.push(entry.name.clone());
            assert(texts(out@) =~= texts(before).push(entry.name@));
        }
        i += 1;
    }
    assert(entries@.take(entries.len() as int) =~= entries@);
    out
}

/// The directories of the installed plugins, in the order of the listing.
pub fn plugin_folders(entries: &Vec<DirectoryEntry>) -> (r: Vec<String>)
    ensures
        texts(r@) == folder_names(entries@),
{
    proof {
        reveal_strlit(".DS_Store");
        assert(".DS_Store"@ =~= metadata_name());
    }
    let mut out: Vec<String> = Vec::new();
    let mut i: usize = 0;
    assert(entries@.take(0) =~= Seq::<DirectoryEntry>::empty());
    assert(texts(out@) =~= Seq::<Seq<char>>::empty());
    while i < entries.len()
        invariant
            i <= entries.len(),
            ".DS_Store"@ == metadata_name(),
            texts(out@) == folder_names(entries@.take(i as int)),
        decreases entries.len() - i,
    {
        let entry = &entries[i];
        let ghost before = out@;
        proof {
            let next = entries@.take(i + 1);
            assert(next.drop_last() =~= entries@.take(i as int));
            assert(next.last() == entries@[i as int]);
        }
        if entry.is_dir && !same_text(entry.name.as_str(), ".DS_Store") {
            out.push(entry.name.clone());
            assert(texts(out@) =~= texts(before).push(entry.name@));
        }
        i += 1;
    }
    assert(entries@.take(entries.len() as int) =~= entries@);
    out
}

/// What is to be unpacked, and where to: one step for each package that
/// waits in the listing, in the order of the listing. The steps do not
/// depend on one another: each can be taken whatever became of the others.
pub fn install_plan(entries: &Vec<DirectoryEntry>) -> (r: Vec<InstallStep>)
    ensures
        r.len() == pending_names(entries@).len(),
        forall|i: int|
            0 <= i < r.len() ==> (#[trigger] r[i]).archive@ == pending_names(entries@)[i]
                && r[i].destination@ == destination_of(pending_names(entries@)[i]),
{
    let archives = pending_archives(entries);
    let mut plan: Vec<InstallStep> = Vec::new();
    let mut i: usize = 0;
    while i < archives.len()
        invariant
            texts(archives@) == pending_names(entries@),
            i <= archives.len(),
            plan.len() == i,
            forall|j: int|
                0 <= j < i ==> (#[trigger] plan[j]).archive@ == archives[j]@ && plan[j].destination@
                    == destination_of(archives[j]@),
        decreases archives.len() - i,
    {
        let destination = destination_name(archives[i].as_str());
        plan.push(InstallStep { archive: archives[i].clone(), destination });
        i += 1;
    }
    assert forall|j: int| 0 <= j < plan.len() implies (#[trigger] plan[j]).archive@
        == pending_names(entries@)[j] && plan[j].destination@ == destination_of(
        pending_names(entries@)[j],
    ) by {
        assert(texts(archives@)[j] == archives[j]@);
    }
    plan
}

/// What is said of one package that could not be unpacked.
pub open spec fn failure_line(failure: InstallFailure) -> Seq<char> {
    failure.archive@ + ": "@ + failure.reason@
}

/// What is said of the packages that could not be unpacked: one after the
/// other, in order.
pub open spec fn failure_lines(failures: Seq<InstallFailure>) -> Seq<char>
    decreases failures.len(),
{
    if failures.len() == 0 {
        Seq::empty()
    } else if failures.len() == 1 {
        failure_line(failures[0])
    } else {
        failure_lines(failures.drop_last()) + "; "@ + failure_line(failures.last())
    }
}

/// What an installation comes to once every package was dealt with:
/// nothing to report where each was unpacked, else one error that names
/// every package that was not, with the reason.
pub open spec fn install_error(failures: Seq<InstallFailure>) -> Option<ErrorModel> {
    if failures.len() == 0 {
        None
    } else {
        Some(ErrorModel::Io("Plugin installation failed: "@ + failure_lines(failures)))
    }
}

/// What an installation comes to once every package was dealt with.
pub fn install_result(failures: &Vec<InstallFailure>) -> (r: Result<(), PluginError>)
    ensures
        match r {
            Ok(_) => install_error(failures@) is None,
            Err(e) => install_error(failures@) == Some(e@),
        },
{
    if failures.len() == 0 {
        return Ok(());
    }
    let mut lines = join(
        join(failures[0].archive.as_str(), ": ").as_str(),
        failures[0].reason.as_str(),
    );
    let mut i: usize = 1;
    assert(failures@.take(1).len() == 1 && failures@.take(1)[0] == failures@[0]);
    while i < failures.len()
        invariant
            1 <= i <= failures.len(),
            lines@ == failure_lines(failures@.take(i as int)),
        decreases failures.len() - i,
    {
        proof {
            let next = failures@.take(i + 1);
            assert(next.drop_last() =~= failures@.take(i as int));
            assert(next.last() == failures@[i as int]);
        }
        let line = join(
            join(failures[i].archive.as_str(), ": ").as_str(),
            failures[i].reason.as_str(),
        );
        lines = join(join(lines.as_str(), "; ").as_str(), line.as_str());
        i += 1;
    }
    assert(failures@.take(failures.len() as int) =~= failures@);
    Err(PluginError::Io(join("Plugin installation failed: ", lines.as_str())))
}

} // verus!
