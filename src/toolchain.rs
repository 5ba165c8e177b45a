//! What the toolchain steps read from the tools they run: whether a version
//! string is reported, whether TinyTeX is listed as installed, and where the
//! R binaries of an installation live.
use vstd::prelude::*;
use vstd::string::StringExecFns;

use crate::summary::views;
use crate::text::{
    chars_of, char_views, contains, contains_chars, is_prefix, lines_of, split_lines, starts_with,
    strip_start, strip_start_of, CharClass,
};

verus! {

broadcast use vstd::string::group_string_axioms;

/// Whether a tool's `--version` output mentions `version`.
pub fn reports_version(output: &str, version: &str) -> (r: bool)
    ensures
        r == contains(output@, version@),
{
    contains_chars(&chars_of(output), &chars_of(version))
}

/// What `quarto list tools` says of TinyTeX: the first line that starts
/// (after indentation) with `tinytex` decides, and it means installed
/// unless it says `Not installed`; without such a line, not installed.
pub open spec fn tinytex_listed(lines: Seq<Seq<char>>) -> bool
    decreases lines.len(),
{
    if lines.len() == 0 {
        false
    } else {
        let t = strip_start(lines[0], CharClass::Space);
        if is_prefix("tinytex"@, t) {
            !contains(t, "Not installed"@)
        } else {
            tinytex_listed(lines.drop_first())
        }
    }
}

/// Reads the output of `quarto list tools`.
pub fn tinytex_installed_from_listing(output: &str) -> (r: bool)
    ensures
        r == tinytex_listed(split_lines(output@)),
{
    let lines = lines_of(&chars_of(output));
    let ghost ls = split_lines(output@);
    let prefix = chars_of("tinytex");
    let marker = chars_of("Not installed");
    let mut i: usize = 0;
    assert(ls.subrange(0, ls.len() as int) =~= ls);
    while i < lines.len()
        invariant
            i <= lines.len(),
            char_views(lines@) == ls,
            ls == split_lines(output@),
            prefix@ == "tinytex"@,
            marker@ == "Not installed"@,
            tinytex_listed(ls) == tinytex_listed(ls.subrange(i as int, ls.len() as int)),
        decreases lines.len() - i,
    {
        let ghost rest = ls.subrange(i as int, ls.len() as int);
        assert(rest[0] == lines@[i as int]@);
        let t = strip_start_of(&lines[i], CharClass::Space);
        if starts_with(&t, &prefix) {
            return !contains_chars(&t, &marker);
        }
        assert(rest.drop_first() =~= ls.subrange(i + 1, ls.len() as int));
        i += 1;
    }
    false
}

/// `/opt/R/<install dir>/bin/<tool>`, where the upstream installer puts
/// R's binaries.
pub fn r_binary_path(install_dir: &str, tool: &str) -> (r: String)
    ensures
        r@ == "/opt/R/"@ + install_dir@ + "/bin/"@ + tool@,
{
    let mut s = String::from_str("/opt/R/");
    s.append(install_dir);
    s.append("/bin/");
    s.append(tool);
    s
}

/// The path segments of `url` as `reqwest::Url` parses it; `None` when it
/// is not a URL or is one that cannot be a base.
pub uninterp spec fn url_path_segments(url: Seq<char>) -> Option<Seq<Seq<char>>>;

/// Relies on `reqwest::Url::parse` and the URL's `path_segments`: the
/// segments depend on the text alone, and there is at least one when there
/// are any.
#[verifier::external_body]
fn path_segments_of(url: &str) -> (r: Option<Vec<String>>)
    ensures
        match r {
            Some(v) => url_path_segments(url@) == Some(views(v@)) && v@.len() >= 1,
            None => url_path_segments(url@) is None,
        },
{
    let parsed = reqwest::Url::parse(url).ok()?;
    let segments = parsed.path_segments()?;
    Some(segments.map(str::to_string).collect())
}

/// Why no installer file name can be taken from a download address.
#[derive(Clone, Copy, PartialEq, Eq, Structural, Debug)]
pub enum UrlError {
    /// The address is not a URL with a path.
    NotAUrl,
    /// Its last path segment is empty.
    NoFileName,
}

/// The installer's file name: the last path segment of the download
/// address, which must not be empty.
pub open spec fn installer_name(url: Seq<char>) -> Result<Seq<char>, UrlError> {
    match url_path_segments(url) {
        None => Err(UrlError::NotAUrl),
        Some(segs) => if segs.len() == 0 || segs.last().len() == 0 {
            Err(UrlError::NoFileName)
        } else {
            Ok(segs.last())
        },
    }
}

/// Takes the installer's file name from its download address.
pub fn file_name_from_url(url: &str) -> (r: Result<String, UrlError>)
    ensures
        (match r {
            Ok(s) => Ok(s@),
            Err(e) => Err(e),
        }) == installer_name(url@),
{
    match path_segments_of(url) {
        None => Err(UrlError::NotAUrl),
        Some(segs) => {
            let last = segs[segs.len() - 1].clone();
            if chars_of(last.as_str()).len() == 0 {
                Err(UrlError::NoFileName)
            } else {
                Ok(last)
            }
        },
    }
}

} // verus!
