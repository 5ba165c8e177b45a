//! The requested R version: normalising the operator's specifier, the
//! platform facts read from `/etc/os-release`, the query sent to the version
//! service and the answer it gives.
use vstd::prelude::*;

use crate::json::{find_member, Json, JsonValue, member};
use crate::summary::{decode_document, decoded, output_text, DecodeError};
use crate::text::{
    chars_of, concat, index_of, index_of_char, is_prefix, is_suffix, lines_of, same_chars, slice,
    split_lines, starts_with, ends_with, string_of, strip_start, strip_start_of, trim, trim_char,
    trim_char_of, trim_of, CharClass, char_views,
};

verus! {

broadcast use vstd::string::group_string_axioms;

/// The endpoint of the R version service.
pub const API_ENDPOINT: &'static str = "https://api.r-hub.io/rversions/resolve";

/// Metadata describing a resolved R toolchain download.
pub struct ResolvedRVersion {
    /// Human readable version string (e.g. `4.3.3`).
    pub version: String,
    /// Download URL for the platform-specific installer.
    pub url: String,
    /// Build type, used to detect special channels like `next` or `devel`.
    pub kind: Option<String>,
}

pub open spec fn opt_view(o: Option<String>) -> Option<Seq<char>> {
    match o {
        Some(s) => Some(s@),
        None => None,
    }
}

impl ResolvedRVersion {
    pub open spec fn view(&self) -> (Seq<char>, Seq<char>, Option<Seq<char>>) {
        (self.version@, self.url@, opt_view(self.kind))
    }

    /// Returns the directory name used under `/opt/R/` by the upstream installer.
    pub fn install_dir_name(&self) -> (r: &str)
        ensures
            r@ == match self.kind {
                Some(k) => if k@ == "next"@ || k@ == "devel"@ {
                    k@
                } else {
                    self.version@
                },
                None => self.version@,
            },
    {
        match &self.kind {
            Some(k) => {
                let v = chars_of(k.as_str());
                if same_chars(&v, &chars_of("next")) || same_chars(&v, &chars_of("devel")) {
                    k.as_str()
                } else {
                    self.version.as_str()
                }
            },
            None => self.version.as_str(),
        }
    }
}

/// What the version service's answer says: `version` and `url` are strings,
/// `type` is absent, `null` or a string.
pub open spec fn resolved_of(doc: JsonValue) -> Option<(Seq<char>, Seq<char>, Option<Seq<char>>)> {
    match doc {
        JsonValue::Object(ms) => {
            let kind = match member(ms, "type"@) {
                None => Some(None),
                Some(JsonValue::Null) => Some(None),
                Some(JsonValue::Str(k)) => Some(Some(k)),
                _ => None,
            };
            match (member(ms, "version"@), member(ms, "url"@), kind) {
                (Some(JsonValue::Str(v)), Some(JsonValue::Str(u)), Some(k)) => Some((v, u, k)),
                _ => None,
            }
        },
        _ => None,
    }
}

fn string_member(doc: &Json, key: &str) -> (r: Option<String>)
    requires
        doc.value() is Object,
    ensures
        match member(doc.value()->Object_0, key@) {
            Some(JsonValue::Str(s)) => opt_view(r) == Some(s),
            _ => r is None,
        },
{
    match find_member(doc, &key.to_owned()) {
        Some(Json::Str(s)) => Some(s.clone()),
        _ => None,
    }
}

impl ResolvedRVersion {
    /// Decodes the version service's answer.
    pub fn decode(body: &[u8]) -> (r: Result<ResolvedRVersion, DecodeError>)
        ensures
            (match r {
                Ok(v) => Ok(v.view()),
                Err(e) => Err(e),
            }) == decoded(output_text(body@), |doc: JsonValue| resolved_of(doc)),
    {
        let doc = match decode_document(body) {
            Ok(d) => d,
            Err(e) => {
                return Err(e);
            },
        };
        if !matches!(doc, Json::Object(_)) {
            return Err(DecodeError::BadShape);
        }
        let kind: Option<Option<String>> = match find_member(&doc, &"type".to_owned()) {
            None => Some(None),
            Some(Json::Null) => Some(None),
            Some(Json::Str(k)) => Some(Some(k.clone())),
            _ => None,
        };
        match (string_member(&doc, "version"), string_member(&doc, "url"), kind) {
            (Some(version), Some(url), Some(kind)) => Ok(ResolvedRVersion { version, url, kind }),
            _ => Err(DecodeError::BadShape),
        }
    }
}

/// `s` without every trailing repetition of `p` (`str::trim_end_matches`).
pub open spec fn strip_suffixes(s: Seq<char>, p: Seq<char>) -> Seq<char>
    decreases s.len(),
{
    if p.len() > 0 && is_suffix(p, s) {
        strip_suffixes(s.subrange(0, s.len() - p.len()), p)
    } else {
        s
    }
}

/// The version specifier as the version service expects it.
pub open spec fn normalized_spec(spec: Seq<char>) -> Seq<char> {
    let t = trim(spec);
    if t == "latest"@ || t == "4"@ || t == "4.x"@ || t == "4.x.x"@ {
        "release"@
    } else if t == "3"@ || t == "3.x"@ || t == "3.x.x"@ {
        "3.6.3"@
    } else if is_suffix(".x"@, t) {
        strip_suffixes(t, ".x"@)
    } else if is_prefix("oldrel-"@, t) {
        "oldrel/"@ + t.subrange(7, t.len() as int)
    } else {
        t
    }
}

fn is_one_of(v: &Vec<char>, options: &[&str]) -> (r: bool)
    ensures
        r == exists|i: int| 0 <= i < options@.len() && v@ == options@[i]@,
{
    for i in 0..options.len()
        invariant
            forall|k: int| 0 <= k < i ==> v@ != options@[k]@,
    {
        if same_chars(v, &chars_of(options[i])) {
            return true;
        }
    }
    false
}

/// Normalises the version specification following the behaviour of setup-r.
pub fn normalize_spec(spec: &str) -> (r: String)
    ensures
        r@ == normalized_spec(spec@),
{
    let t = trim_of(&chars_of(spec));
    let release_aliases = ["latest", "4", "4.x", "4.x.x"];
    let legacy_aliases = ["3", "3.x", "3.x.x"];
    if is_one_of(&t, &release_aliases) {
        assert(t@ == "latest"@ || t@ == "4"@ || t@ == "4.x"@ || t@ == "4.x.x"@) by {
            let i = choose|i: int| 0 <= i < 4 && t@ == release_aliases@[i]@;
            assert(release_aliases@[i] == release_aliases[i]);
        }
        return "release".to_owned();
    }
    assert(!(t@ == "latest"@ || t@ == "4"@ || t@ == "4.x"@ || t@ == "4.x.x"@)) by {
        assert(release_aliases@[0] == "latest");
        assert(release_aliases@[1] == "4");
        assert(release_aliases@[2] == "4.x");
        assert(release_aliases@[3] == "4.x.x");
    }
    if is_one_of(&t, &legacy_aliases) {
        assert(t@ == "3"@ || t@ == "3.x"@ || t@ == "3.x.x"@) by {
            let i = choose|i: int| 0 <= i < 3 && t@ == legacy_aliases@[i]@;
            assert(legacy_aliases@[i] == legacy_aliases[i]);
        }
        return "3.6.3".to_owned();
    }
    assert(!(t@ == "3"@ || t@ == "3.x"@ || t@ == "3.x.x"@)) by {
        assert(legacy_aliases@[0] == "3");
        assert(legacy_aliases@[1] == "3.x");
        assert(legacy_aliases@[2] == "3.x.x");
    }
    let dot_x = chars_of(".x");
    let oldrel = chars_of("oldrel-");
    proof {
        reveal_strlit(".x");
        reveal_strlit("oldrel-");
    }
    if ends_with(&t, &dot_x) {
        let mut end: usize = t.len();
        assert(t@.subrange(0, end as int) =~= t@);
        while end >= 2 && t[end - 2] == '.' && t[end - 1] == 'x'
            invariant
                end <= t.len(),
                dot_x@ == ".x"@,
                strip_suffixes(t@, ".x"@) == strip_suffixes(t@.subrange(0, end as int), ".x"@),
            decreases end,
        {
            let ghost s = t@.subrange(0, end as int);
            proof {
                reveal_strlit(".x");
            }
            assert(s.subrange(s.len() - 2, s.len() as int) =~= ".x"@);
            assert(s.subrange(0, s.len() - 2) =~= t@.subrange(0, end - 2));
            end -= 2;
        }
        let ghost s = t@.subrange(0, end as int);
        assert(!is_suffix(".x"@, s)) by {
            reveal_strlit(".x");
            if is_suffix(".x"@, s) {
                assert(s[s.len() - 2] == s.subrange(s.len() - 2, s.len() as int)[0]);
                assert(s[s.len() - 1] == s.subrange(s.len() - 2, s.len() as int)[1]);
            }
        }
        return string_of(&slice(&t, 0, end));
    }
    if starts_with(&t, &oldrel) {
        let rest = slice(&t, 7, t.len());
        let head = chars_of("oldrel/");
        return string_of(&concat(&head, &rest));
    }
    string_of(&t)
}

/// A comment line starts with `#`.
pub open spec fn is_comment(t: Seq<char>) -> bool {
    t.len() > 0 && t[0] == '#'
}

/// A value without surrounding white space, then double quotes, then
/// single quotes.
pub open spec fn unquote(v: Seq<char>) -> Seq<char> {
    trim_char(trim_char(trim(v), '"'), '\'')
}

pub open spec fn has_eq(line: Seq<char>) -> bool {
    index_of(line, '=') < line.len()
}

/// The key and value of a `KEY=value` line, cut at its first `=`.
pub open spec fn entry_of(line: Seq<char>) -> (Seq<char>, Seq<char>) {
    let i = index_of(line, '=');
    (trim(line.subrange(0, i)), unquote(line.subrange(i + 1, line.len() as int)))
}

/// The entry of an os-release line: none for comments and lines without
/// `=`.
pub open spec fn os_release_entry(line: Seq<char>) -> Option<(Seq<char>, Seq<char>)> {
    if is_comment(strip_start(line, CharClass::Space)) || !has_eq(line) {
        None
    } else {
        Some(entry_of(line))
    }
}

pub open spec fn os_release_entries(lines: Seq<Seq<char>>) -> Seq<(Seq<char>, Seq<char>)>
    decreases lines.len(),
{
    if lines.len() == 0 {
        Seq::empty()
    } else {
        let rest = os_release_entries(lines.drop_last());
        match os_release_entry(lines.last()) {
            Some(e) => rest.push(e),
            None => rest,
        }
    }
}

/// The value of the last entry named `key`.
pub open spec fn last_value(es: Seq<(Seq<char>, Seq<char>)>, key: Seq<char>) -> Option<Seq<char>>
    decreases es.len(),
{
    if es.len() == 0 {
        None
    } else if es.last().0 == key {
        Some(es.last().1)
    } else {
        last_value(es.drop_last(), key)
    }
}

/// The value of the first entry named `key`.
pub open spec fn first_value(es: Seq<(Seq<char>, Seq<char>)>, key: Seq<char>) -> Option<Seq<char>>
    decreases es.len(),
{
    if es.len() == 0 {
        None
    } else if es[0].0 == key {
        Some(es[0].1)
    } else {
        first_value(es.drop_first(), key)
    }
}

pub open spec fn pair_views(v: Seq<(String, String)>) -> Seq<(Seq<char>, Seq<char>)> {
    v.map_values(|p: (String, String)| (p.0@, p.1@))
}

pub fn unquote_of(v: &Vec<char>) -> (r: Vec<char>)
    ensures
        r@ == unquote(v@),
{
    trim_char_of(&trim_char_of(&trim_of(v), '"'), '\'')
}

/// The entry of a line that holds an `=`.
pub fn entry_of_line(line: &Vec<char>) -> (r: (String, String))
    requires
        has_eq(line@),
    ensures
        (r.0@, r.1@) == entry_of(line@),
{
    let i = index_of_char(line, '=');
    let key = trim_of(&slice(line, 0, i));
    let value = unquote_of(&slice(line, i + 1, line.len()));
    (string_of(&key), string_of(&value))
}

fn is_comment_of(t: &Vec<char>) -> (r: bool)
    ensures
        r == is_comment(t@),
{
    t.len() > 0 && t[0] == '#'
}

/// The `KEY=value` pairs of an os-release file, in order.
pub struct OsRelease {
    pub pairs: Vec<(String, String)>,
}

impl OsRelease {
    pub open spec fn view(&self) -> Seq<(Seq<char>, Seq<char>)> {
        pair_views(self.pairs@)
    }

    /// The value of `key`; where it is given twice, the later one.
    pub fn get(&self, key: &str) -> (r: Option<&String>)
        ensures
            opt_view(match r {
                Some(s) => Some(*s),
                None => None,
            }) == last_value(self@, key@),
    {
        last_value_of(&self.pairs, key)
    }
}

/// The value of the last pair named `key`.
pub fn last_value_of<'a>(pairs: &'a Vec<(String, String)>, key: &str) -> (r: Option<&'a String>)
    ensures
        opt_view(match r {
            Some(s) => Some(*s),
            None => None,
        }) == last_value(pair_views(pairs@), key@),
{
    let ghost es = pair_views(pairs@);
    let k = chars_of(key);
    let mut j: usize = pairs.len();
    assert(es.subrange(0, j as int) =~= es);
    while j > 0
        invariant
            j <= pairs.len(),
            es == pair_views(pairs@),
            k@ == key@,
            last_value(es, key@) == last_value(es.subrange(0, j as int), key@),
        decreases j,
    {
        let ghost s = es.subrange(0, j as int);
        assert(s.last() == (pairs@[j - 1].0@, pairs@[j - 1].1@));
        if same_chars(&chars_of(pairs[j - 1].0.as_str()), &k) {
            return Some(&pairs[j - 1].1);
        }
        assert(s.drop_last() =~= es.subrange(0, j - 1));
        j -= 1;
    }
    None
}

/// The value of the first pair named `key`.
pub fn first_value_of<'a>(pairs: &'a Vec<(String, String)>, key: &str) -> (r: Option<&'a String>)
    ensures
        opt_view(match r {
            Some(s) => Some(*s),
            None => None,
        }) == first_value(pair_views(pairs@), key@),
{
    let ghost es = pair_views(pairs@);
    let k = chars_of(key);
    let mut i: usize = 0;
    assert(es.subrange(0, es.len() as int) =~= es);
    while i < pairs.len()
        invariant
            i <= pairs.len(),
            es == pair_views(pairs@),
            k@ == key@,
            first_value(es, key@) == first_value(es.subrange(i as int, es.len() as int), key@),
        decreases pairs.len() - i,
    {
        let ghost s = es.subrange(i as int, es.len() as int);
        assert(s[0] == (pairs@[i as int].0@, pairs@[i as int].1@));
        if same_chars(&chars_of(pairs[i].0.as_str()), &k) {
            return Some(&pairs[i].1);
        }
        assert(s.drop_first() =~= es.subrange(i + 1, es.len() as int));
        i += 1;
    }
    None
}

/// Parses the `KEY=value` lines of an os-release file; quotes around values
/// are dropped.
pub fn parse_os_release(contents: &str) -> (r: OsRelease)
    ensures
        r@ == os_release_entries(split_lines(contents@)),
{
    let lines = lines_of(&chars_of(contents));
    let ghost ls = split_lines(contents@);
    let mut pairs: Vec<(String, String)> = Vec::new();
    for i in 0..lines.len()
        invariant
            char_views(lines@) == ls,
            pair_views(pairs@) == os_release_entries(ls.subrange(0, i as int)),
    {
        let line = &lines[i];
        assert(ls.subrange(0, i + 1).drop_last() =~= ls.subrange(0, i as int));
        assert(ls[i as int] == line@);
        let head = strip_start_of(line, CharClass::Space);
        if !is_comment_of(&head) && index_of_char(line, '=') < line.len() {
            let e = entry_of_line(line);
            let ghost before = pairs@;
            pairs.push(e);
            assert(pair_views(pairs@) =~= pair_views(before).push(entry_of(line@)));
        } else {
        }
    }
    assert(ls.subrange(0, lines.len() as int) =~= ls);
    OsRelease { pairs }
}

/// Why the platform could not be named.
#[derive(Clone, Copy, PartialEq, Eq, Structural, Debug)]
pub enum PlatformError {
    MissingId,
    MissingVersionId,
}

/// The platform name that the version service expects: `linux-<ID>-<VERSION_ID>`.
pub open spec fn platform_of(es: Seq<(Seq<char>, Seq<char>)>) -> Result<Seq<char>, PlatformError> {
    match (last_value(es, "ID"@), last_value(es, "VERSION_ID"@)) {
        (Some(id), Some(v)) => Ok("linux-"@ + id + "-"@ + v),
        (None, _) => Err(PlatformError::MissingId),
        (_, None) => Err(PlatformError::MissingVersionId),
    }
}

/// Names the Linux platform from the contents of `/etc/os-release`.
pub fn platform_from_os_release(contents: &str) -> (r: Result<String, PlatformError>)
    ensures
        (match r {
            Ok(s) => Ok(s@),
            Err(e) => Err(e),
        }) == platform_of(os_release_entries(split_lines(contents@))),
{
    let release = parse_os_release(contents);
    let id = match release.get("ID") {
        Some(id) => id,
        None => {
            return Err(PlatformError::MissingId);
        },
    };
    let version = match release.get("VERSION_ID") {
        Some(v) => v,
        None => {
            return Err(PlatformError::MissingVersionId);
        },
    };
    let mut out = chars_of("linux-");
    out = concat(&out, &chars_of(id.as_str()));
    out = concat(&out, &chars_of("-"));
    out = concat(&out, &chars_of(version.as_str()));
    Ok(string_of(&out))
}

/// A platform given by the operator: used when it is not blank.
pub fn platform_override(value: &str) -> (r: Option<String>)
    ensures
        match r {
            Some(s) => trim(value@).len() > 0 && s@ == value@,
            None => trim(value@).len() == 0,
        },
{
    if trim_of(&chars_of(value)).len() > 0 {
        Some(value.to_owned())
    } else {
        None
    }
}

/// The architecture segment of the service's path for a Rust target
/// architecture; none for architectures the service does not know.
pub fn api_arch(arch: &str) -> (r: Option<&'static str>)
    ensures
        match r {
            Some(s) => (arch@ == "x86_64"@ && s@ == "x86_64"@) || (arch@ == "aarch64"@ && s@
                == "arm64"@),
            None => arch@ != "x86_64"@ && arch@ != "aarch64"@,
        },
{
    let a = chars_of(arch);
    if same_chars(&a, &chars_of("x86_64")) {
        Some("x86_64")
    } else if same_chars(&a, &chars_of("aarch64")) {
        Some("arm64")
    } else {
        None
    }
}

/// The address that resolves `spec` for `platform` and, when given,
/// `arch`: `<endpoint>/<normalised spec>/<platform>[/<arch>]`.
pub fn resolve_url(spec: &str, platform: &str, arch: Option<&str>) -> (r: String)
    ensures
        r@ == API_ENDPOINT@ + "/"@ + normalized_spec(spec@) + "/"@ + platform@ + match arch {
            Some(a) => "/"@ + a@,
            None => Seq::empty(),
        },
{
    let normalized = normalize_spec(spec);
    let slash = chars_of("/");
    let mut out = concat(&chars_of(API_ENDPOINT), &slash);
    out = concat(&out, &chars_of(normalized.as_str()));
    out = concat(&out, &slash);
    out = concat(&out, &chars_of(platform));
    match arch {
        Some(a) => {
            out = concat(&out, &slash);
            out = concat(&out, &chars_of(a));
        },
        None => {
            assert(out@ + Seq::<char>::empty() =~= out@);
        },
    }
    string_of(&out)
}

} // verus!
