//! Facts about the target package and its host that the revdep phases need:
//! whether an input is a source tarball, where results go, the host's Ubuntu
//! codename, and which extracted directory is the package root.
use vstd::prelude::*;

use crate::r_version::{
    entry_of, entry_of_line, first_value, first_value_of, has_eq, is_comment, last_value,
    last_value_of, opt_view, pair_views,
};
use crate::text::{
    ascii_lower, ascii_lower_of, chars_of, char_views, ends_with, index_of_char, is_suffix,
    lines_of, lower_of, split_lines, string_of, to_lowercase, trim, trim_of,
};
use crate::workspace::{join_path, joined};

verus! {

broadcast use vstd::string::group_string_axioms;

/// The file whose presence marks a directory as a package root.
pub const MANIFEST_FILE: &'static str = "DESCRIPTION";

/// The results directory under the repository.
pub const RESULTS_DIR_NAME: &'static str = "revdep";

/// The library directory under the results directory.
pub const LIBRARY_DIR_NAME: &'static str = "library";

/// A path names a source tarball when it ends in `.tar.gz`, in any case.
pub open spec fn is_tarball_path(path: Seq<char>) -> bool {
    is_suffix(".tar.gz"@, path.map_values(|c: char| ascii_lower(c)))
}

/// Whether `path` names a source package tarball.
pub fn is_tarball(path: &str) -> (r: bool)
    ensures
        r == is_tarball_path(path@),
{
    let lower = ascii_lower_of(&chars_of(path));
    ends_with(&lower, &chars_of(".tar.gz"))
}

/// Returns the default library directory created for xfun::rev_check().
pub fn revlib_dir(repo_path: &str) -> (r: String)
    ensures
        r@ == joined(repo_path@, RESULTS_DIR_NAME@),
{
    join_path(repo_path, RESULTS_DIR_NAME)
}

/// The package library beneath the results directory, which the cache
/// monitor samples.
pub fn library_dir(repo_path: &str) -> (r: String)
    ensures
        r@ == joined(joined(repo_path@, RESULTS_DIR_NAME@), LIBRARY_DIR_NAME@),
{
    join_path(revlib_dir(repo_path).as_str(), LIBRARY_DIR_NAME)
}

/// The entry of an os-release line as the codename search reads it: the
/// line is trimmed first, and entries with an empty value are skipped.
pub open spec fn codename_entry(line: Seq<char>) -> Option<(Seq<char>, Seq<char>)> {
    let t = trim(line);
    if t.len() == 0 || is_comment(t) || !has_eq(t) || entry_of(t).1.len() == 0 {
        None
    } else {
        Some(entry_of(t))
    }
}

pub open spec fn codename_entries(lines: Seq<Seq<char>>) -> Seq<(Seq<char>, Seq<char>)>
    decreases lines.len(),
{
    if lines.len() == 0 {
        Seq::empty()
    } else {
        let rest = codename_entries(lines.drop_last());
        match codename_entry(lines.last()) {
            Some(e) => rest.push(e),
            None => rest,
        }
    }
}

/// The codename that an os-release file gives: the first
/// `VERSION_CODENAME`, else the last `UBUNTU_CODENAME`, lowercased.
pub open spec fn codename_of(contents: Seq<char>) -> Option<Seq<char>> {
    let es = codename_entries(split_lines(contents));
    match first_value(es, "VERSION_CODENAME"@) {
        Some(v) => Some(lower_of(v)),
        None => match last_value(es, "UBUNTU_CODENAME"@) {
            Some(v) => Some(lower_of(v)),
            None => None,
        },
    }
}

/// Reads the Ubuntu release codename from the contents of `/etc/os-release`.
pub fn ubuntu_codename_from_os_release(contents: &str) -> (r: Option<String>)
    ensures
        opt_view(r) == codename_of(contents@),
{
    let lines = lines_of(&chars_of(contents));
    let ghost ls = split_lines(contents@);
    let mut entries: Vec<(String, String)> = Vec::new();
    for i in 0..lines.len()
        invariant
            char_views(lines@) == ls,
            pair_views(entries@) == codename_entries(ls.subrange(0, i as int)),
    {
        let line = &lines[i];
        assert(ls.subrange(0, i + 1).drop_last() =~= ls.subrange(0, i as int));
        assert(ls[i as int] == line@);
        let t = trim_of(line);
        if t.len() > 0 && t[0] != '#' && index_of_char(&t, '=') < t.len() {
            let e = entry_of_line(&t);
            if chars_of(e.1.as_str()).len() > 0 {
                let ghost before = entries@;
                entries.push(e);
                assert(pair_views(entries@) =~= pair_views(before).push(entry_of(t@)));
            }
        }
    }
    assert(ls.subrange(0, lines.len() as int) =~= ls);
    match first_value_of(&entries, "VERSION_CODENAME") {
        Some(v) => Some(to_lowercase(v.as_str())),
        None => match last_value_of(&entries, "UBUNTU_CODENAME") {
            Some(v) => Some(to_lowercase(v.as_str())),
            None => None,
        },
    }
}

/// A codename given by the operator: used, trimmed and lowercased, when it
/// is not blank.
pub fn codename_override(value: &str) -> (r: Option<String>)
    ensures
        opt_view(r) == if trim(value@).len() > 0 {
            Some(lower_of(trim(value@)))
        } else {
            None
        },
{
    let t = trim_of(&chars_of(value));
    if t.len() > 0 {
        Some(to_lowercase(string_of(&t).as_str()))
    } else {
        None
    }
}

/// One entry of an extraction directory, with whether it is a directory
/// that holds the manifest file.
pub struct RootEntry {
    pub path: String,
    pub is_package_dir: bool,
}

/// What an extraction directory holds.
pub struct PackageListing {
    /// Whether the extraction directory itself holds the manifest file.
    pub root_has_manifest: bool,
    pub entries: Vec<RootEntry>,
}

/// Why no package root was found.
#[derive(PartialEq, Eq, Debug)]
pub enum RootError {
    /// No directory holds the manifest file.
    NoManifest,
    /// Several directories hold it; they are listed.
    Ambiguous(Vec<String>),
}

/// The paths of the entries that are package directories, in order.
pub open spec fn package_dirs(entries: Seq<RootEntry>) -> Seq<Seq<char>>
    decreases entries.len(),
{
    if entries.len() == 0 {
        Seq::empty()
    } else {
        let rest = package_dirs(entries.drop_last());
        if entries.last().is_package_dir {
            rest.push(entries.last().path@)
        } else {
            rest
        }
    }
}

/// The package root of an extraction: the directory itself when it holds
/// the manifest, else its one subdirectory that does.
pub open spec fn package_root(root: Seq<char>, has_manifest: bool, dirs: Seq<Seq<char>>) -> Result<
    Seq<char>,
    Option<Seq<Seq<char>>>,
> {
    if has_manifest {
        Ok(root)
    } else if dirs.len() == 1 {
        Ok(dirs[0])
    } else if dirs.len() == 0 {
        Err(None)
    } else {
        Err(Some(dirs))
    }
}

pub open spec fn root_error_view(e: RootError) -> Option<Seq<Seq<char>>> {
    match e {
        RootError::NoManifest => None,
        RootError::Ambiguous(v) => Some(v@.map_values(|s: String| s@)),
    }
}

/// Locates the package root of an extracted archive; never picks one of
/// several candidates.
pub fn locate_package_root(extraction_root: &str, listing: &PackageListing) -> (r: Result<
    String,
    RootError,
>)
    ensures
        (match r {
            Ok(p) => Ok(p@),
            Err(e) => Err(root_error_view(e)),
        }) == package_root(
            extraction_root@,
            listing.root_has_manifest,
            package_dirs(listing.entries@),
        ),
{
    if listing.root_has_manifest {
        return Ok(extraction_root.to_owned());
    }
    let entries = &listing.entries;
    let mut candidates: Vec<String> = Vec::new();
    for i in 0..entries.len()
        invariant
            entries == &listing.entries,
            candidates@.map_values(|s: String| s@) == package_dirs(entries@.subrange(0, i as int)),
    {
        assert(entries@.subrange(0, i + 1).drop_last() =~= entries@.subrange(0, i as int));
        if entries[i].is_package_dir {
            let ghost c0 = candidates@;
            candidates.push(entries[i].path.clone());
            assert(candidates@.map_values(|s: String| s@) =~= c0.map_values(|s: String| s@).push(
                entries@[i as int].path@,
            ));
        }
    }
    assert(entries@.subrange(0, entries.len() as int) =~= entries@);
    if candidates.len() == 1 {
        let c = candidates[0].clone();
        assert(package_dirs(entries@)[0] == candidates@[0]@);
        Ok(c)
    } else if candidates.len() == 0 {
        Err(RootError::NoManifest)
    } else {
        Err(RootError::Ambiguous(candidates))
    }
}

/// An extraction whose root lacks the manifest resolves to its one package
/// subdirectory, fails with "no manifest" when there is none, and fails
/// listing every candidate when there are several.
pub proof fn lemma_package_root_resolution(root: Seq<char>, dirs: Seq<Seq<char>>)
    ensures
        dirs.len() == 1 ==> package_root(root, false, dirs) == Ok::<Seq<char>, Option<Seq<Seq<char>>>>(dirs[0]),
        dirs.len() == 0 ==> package_root(root, false, dirs) == Err::<Seq<char>, Option<Seq<Seq<char>>>>(None),
        dirs.len() >= 2 ==> package_root(root, false, dirs) == Err::<Seq<char>, Option<Seq<Seq<char>>>>(Some(dirs)),
        package_root(root, true, dirs) == Ok::<Seq<char>, Option<Seq<Seq<char>>>>(root),
{
}

} // verus!
