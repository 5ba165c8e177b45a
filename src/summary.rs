//! Decoding what a job prints on stdout: the summary of the prepare phase
//! and the system-requirements payload. Both are one JSON object, read from
//! the trimmed text.
use vstd::prelude::*;
use vstd::utf8::{decode_utf8, valid_utf8};

use crate::json::{find_member, json_document, member, parse_json, Json, JsonValue};
use crate::text::{chars_of, string_of, trim, trim_of};

verus! {

broadcast use vstd::string::group_string_axioms;

/// Relies on `std::str::from_utf8`: it accepts exactly the valid UTF-8
/// byte strings and yields the characters they encode.
#[verifier::external_body]
fn utf8_text(bytes: &[u8]) -> (r: Option<&str>)
    ensures
        match r {
            Some(s) => valid_utf8(bytes@) && s@ == decode_utf8(bytes@),
            None => !valid_utf8(bytes@),
        },
{
    std::str::from_utf8(bytes).ok()
}

/// Why captured output could not be decoded.
#[derive(Clone, Copy, PartialEq, Eq, Structural, Debug)]
pub enum DecodeError {
    /// Nothing but white space was printed.
    NoOutput,
    /// The bytes are not UTF-8.
    NotText,
    /// The text is not one JSON document.
    NotJson,
    /// The document is not an object with the expected fields.
    BadShape,
}

impl DecodeError {
    /// Whether the raw output should be shown to the operator.
    pub fn is_malformed(&self) -> (r: bool)
        ensures
            r == !(*self is NoOutput),
    {
        !matches!(self, DecodeError::NoOutput)
    }

    /// A short description of the failure.
    pub fn message(&self) -> (r: String)
        ensures
            r@ == match *self {
                DecodeError::NoOutput => "no summary output"@,
                DecodeError::NotText => "output is not valid UTF-8"@,
                DecodeError::NotJson => "output is not a JSON document"@,
                DecodeError::BadShape => "output does not have the expected fields"@,
            },
    {
        match self {
            DecodeError::NoOutput => "no summary output".to_owned(),
            DecodeError::NotText => "output is not valid UTF-8".to_owned(),
            DecodeError::NotJson => "output is not a JSON document".to_owned(),
            DecodeError::BadShape => "output does not have the expected fields".to_owned(),
        }
    }
}

pub open spec fn is_digit(c: char) -> bool {
    '0' <= c && c <= '9'
}

/// The number that a string of decimal digits denotes.
pub open spec fn digits_value(s: Seq<char>) -> nat
    decreases s.len(),
{
    if s.len() == 0 {
        0
    } else {
        digits_value(s.drop_last()) * 10 + ((s.last() as u32) - 48) as nat
    }
}

/// The `u64` that a JSON number's text denotes, when it is a non-negative
/// integer in range.
pub open spec fn u64_of_text(s: Seq<char>) -> Option<u64> {
    if s.len() > 0 && (forall|i: int| 0 <= i < s.len() ==> is_digit(#[trigger] s[i]))
        && digits_value(s) <= u64::MAX {
        Some(digits_value(s) as u64)
    } else {
        None
    }
}

proof fn lemma_digits_value_grows(s: Seq<char>, k: int)
    requires
        0 <= k <= s.len(),
        forall|i: int| 0 <= i < s.len() ==> is_digit(#[trigger] s[i]),
    ensures
        digits_value(s.subrange(0, k)) <= digits_value(s),
    decreases s.len(),
{
    if k < s.len() {
        let d = s.drop_last();
        assert forall|i: int| 0 <= i < d.len() implies is_digit(#[trigger] d[i]) by {
            assert(d[i] == s[i]);
        }
        lemma_digits_value_grows(d, k);
        assert(d.subrange(0, k) =~= s.subrange(0, k));
    } else {
        assert(s.subrange(0, k) =~= s);
    }
}

/// Reads a non-negative decimal integer that fits in a `u64`.
pub fn parse_u64(v: &Vec<char>) -> (r: Option<u64>)
    ensures
        r == u64_of_text(v@),
{
    if v.len() == 0 {
        return None;
    }
    let mut acc: u64 = 0;
    let mut i: usize = 0;
    while i < v.len()
        invariant
            i <= v.len(),
            forall|k: int| 0 <= k < i ==> is_digit(#[trigger] v@[k]),
            acc as nat == digits_value(v@.subrange(0, i as int)),
        decreases v.len() - i,
    {
        let c = v[i];
        if !('0' <= c && c <= '9') {
            assert(!is_digit(v@[i as int]));
            return None;
        }
        let d = (c as u32 - 48) as u64;
        assert(v@.subrange(0, i + 1).drop_last() =~= v@.subrange(0, i as int));
        if acc > (u64::MAX - d) / 10 {
            proof {
                assert(digits_value(v@.subrange(0, i + 1)) > u64::MAX);
                let w = v@;
                if forall|k: int| 0 <= k < w.len() ==> is_digit(#[trigger] w[k]) {
                    lemma_digits_value_grows(w, i + 1);
                }
            }
            return None;
        }
        acc = acc * 10 + d;
        i += 1;
    }
    assert(v@.subrange(0, i as int) =~= v@);
    Some(acc)
}

/// The strings of an array that holds strings only.
pub open spec fn string_list(v: JsonValue) -> Option<Seq<Seq<char>>> {
    match v {
        JsonValue::Array(items) => if forall|i: int| 0 <= i < items.len() ==> #[trigger] items[i] is Str {
            Some(Seq::new(items.len(), |i: int| items[i]->Str_0))
        } else {
            None
        },
        _ => None,
    }
}

/// A string field that may also hold one string or `null` (none).
pub open spec fn string_or_list(v: JsonValue) -> Option<Seq<Seq<char>>> {
    match v {
        JsonValue::Null => Some(Seq::empty()),
        JsonValue::Str(s) => Some(seq![s]),
        _ => string_list(v),
    }
}

pub open spec fn views(v: Seq<String>) -> Seq<Seq<char>> {
    v.map_values(|s: String| s@)
}

/// The strings of `j` when it is an array of strings.
pub fn strings_of(j: &Json) -> (r: Option<Vec<String>>)
    ensures
        match r {
            Some(v) => string_list(j.value()) == Some(views(v@)),
            None => string_list(j.value()) is None,
        },
{
    match j {
        Json::Array(items) => {
            let ghost vs = j.value()->Array_0;
            let mut out: Vec<String> = Vec::new();
            for i in 0..items.len()
                invariant
                    vs == j.value()->Array_0,
                    *j == Json::Array(*items),
                    vs.len() == items.len(),
                    out.len() == i,
                    forall|k: int| 0 <= k < i ==> #[trigger] vs[k] is Str && vs[k]->Str_0 == out@[k]@,
            {
                assert(vs[i as int] == items@[i as int].value());
                match &items[i] {
                    Json::Str(s) => {
                        out.push(s.clone());
                    },
                    _ => {
                        assert(!(vs[i as int] is Str));
                        return None;
                    },
                }
            }
            assert(views(out@) =~= Seq::new(vs.len(), |i: int| vs[i]->Str_0));
            Some(out)
        },
        _ => None,
    }
}

/// The strings of `j` read as one string, `null` or an array of strings.
pub fn string_or_strings(j: &Json) -> (r: Option<Vec<String>>)
    ensures
        match r {
            Some(v) => string_or_list(j.value()) == Some(views(v@)),
            None => string_or_list(j.value()) is None,
        },
{
    match j {
        Json::Null => {
            let v: Vec<String> = Vec::new();
            assert(views(v@) =~= Seq::empty());
            Some(v)
        },
        Json::Str(s) => {
            let mut v: Vec<String> = Vec::new();
            v.push(s.clone());
            assert(views(v@) =~= seq![s@]);
            Some(v)
        },
        _ => strings_of(j),
    }
}

/// The decoded summary of the prepare phase.
pub struct PrepareSummary {
    pub todo_count: u64,
    pub precache_failed: Vec<String>,
    pub warnings: Vec<String>,
}

/// The summary fields of a document: `todo_count` is required, the two
/// lists default to empty when absent.
pub open spec fn summary_of(doc: JsonValue) -> Option<(u64, Seq<Seq<char>>, Seq<Seq<char>>)> {
    match doc {
        JsonValue::Object(ms) => {
            let count = match member(ms, "todo_count"@) {
                Some(JsonValue::Number(t)) => u64_of_text(t),
                _ => None,
            };
            let failed = match member(ms, "precache_failed"@) {
                None => Some(Seq::empty()),
                Some(v) => string_list(v),
            };
            let warnings = match member(ms, "warnings"@) {
                None => Some(Seq::empty()),
                Some(v) => string_list(v),
            };
            if count is Some && failed is Some && warnings is Some {
                Some((count->0, failed->0, warnings->0))
            } else {
                None
            }
        },
        _ => None,
    }
}

/// The trimmed text of captured output, when it is UTF-8.
pub open spec fn output_text(bytes: Seq<u8>) -> Option<Seq<char>> {
    if valid_utf8(bytes) {
        Some(trim(decode_utf8(bytes)))
    } else {
        None
    }
}

/// The outcome of decoding `text` (already trimmed) with `shape`.
pub open spec fn decoded<T>(
    text: Option<Seq<char>>,
    shape: spec_fn(JsonValue) -> Option<T>,
) -> Result<T, DecodeError> {
    match text {
        None => Err(DecodeError::NotText),
        Some(t) => if t.len() == 0 {
            Err(DecodeError::NoOutput)
        } else {
            match json_document(t) {
                None => Err(DecodeError::NotJson),
                Some(doc) => match shape(doc) {
                    Some(x) => Ok(x),
                    None => Err(DecodeError::BadShape),
                },
            }
        },
    }
}

impl PrepareSummary {
    pub open spec fn view(&self) -> (u64, Seq<Seq<char>>, Seq<Seq<char>>) {
        (self.todo_count, views(self.precache_failed@), views(self.warnings@))
    }
}

fn list_field(j: &Json, key: &str) -> (r: Option<Vec<String>>)
    requires
        j.value() is Object,
    ensures
        match r {
            Some(v) => (match member(j.value()->Object_0, key@) {
                None => Some(Seq::empty()),
                Some(x) => string_list(x),
            }) == Some(views(v@)),
            None => (match member(j.value()->Object_0, key@) {
                None => Some(Seq::<Seq<char>>::empty()),
                Some(x) => string_list(x),
            }) is None,
        },
{
    let k = key.to_owned();
    match find_member(j, &k) {
        None => {
            let v: Vec<String> = Vec::new();
            assert(views(v@) =~= Seq::empty());
            Some(v)
        },
        Some(x) => strings_of(x),
    }
}

/// The one JSON document in captured output.
pub fn decode_document(stdout: &[u8]) -> (r: Result<Json, DecodeError>)
    ensures
        (match r {
            Ok(j) => Ok(j.value()),
            Err(e) => Err(e),
        }) == decoded(output_text(stdout@), |doc: JsonValue| Some(doc)),
{
    let text = match utf8_text(stdout) {
        Some(t) => t,
        None => {
            return Err(DecodeError::NotText);
        },
    };
    let trimmed_chars = trim_of(&chars_of(text));
    if trimmed_chars.len() == 0 {
        return Err(DecodeError::NoOutput);
    }
    let trimmed = string_of(&trimmed_chars);
    match parse_json(trimmed.as_str()) {
        Some(d) => Ok(d),
        None => Err(DecodeError::NotJson),
    }
}

/// Decodes the summary that the prepare phase prints on stdout.
pub fn decode_summary(stdout: &[u8]) -> (r: Result<PrepareSummary, DecodeError>)
    ensures
        (match r {
            Ok(s) => Ok(s.view()),
            Err(e) => Err(e),
        }) == decoded(output_text(stdout@), |doc: JsonValue| summary_of(doc)),
{
    let doc = match decode_document(stdout) {
        Ok(d) => d,
        Err(e) => {
            return Err(e);
        },
    };
    if !matches!(doc, Json::Object(_)) {
        return Err(DecodeError::BadShape);
    }
    let count_key = "todo_count".to_owned();
    let count = match find_member(&doc, &count_key) {
        Some(Json::Number(t)) => parse_u64(&chars_of(t.as_str())),
        _ => None,
    };
    let failed = list_field(&doc, "precache_failed");
    let warnings = list_field(&doc, "warnings");
    match (count, failed, warnings) {
        (Some(n), Some(p), Some(w)) => Ok(PrepareSummary { todo_count: n, precache_failed: p, warnings: w }),
        _ => Err(DecodeError::BadShape),
    }
}

/// The system requirements that the setup phase reports.
pub struct SysreqsPayload {
    pub install_scripts: Vec<String>,
    pub post_install: Vec<String>,
}

impl SysreqsPayload {
    pub open spec fn view(&self) -> (Seq<Seq<char>>, Seq<Seq<char>>) {
        (views(self.install_scripts@), views(self.post_install@))
    }
}

/// The payload fields of a document: each is absent, `null`, one string or
/// an array of strings.
pub open spec fn sysreqs_of(doc: JsonValue) -> Option<(Seq<Seq<char>>, Seq<Seq<char>>)> {
    match doc {
        JsonValue::Object(ms) => {
            let scripts = match member(ms, "install_scripts"@) {
                None => Some(Seq::empty()),
                Some(v) => string_or_list(v),
            };
            let post = match member(ms, "post_install"@) {
                None => Some(Seq::empty()),
                Some(v) => string_or_list(v),
            };
            if scripts is Some && post is Some {
                Some((scripts->0, post->0))
            } else {
                None
            }
        },
        _ => None,
    }
}

fn commands_field(j: &Json, key: &str) -> (r: Option<Vec<String>>)
    requires
        j.value() is Object,
    ensures
        match r {
            Some(v) => (match member(j.value()->Object_0, key@) {
                None => Some(Seq::empty()),
                Some(x) => string_or_list(x),
            }) == Some(views(v@)),
            None => (match member(j.value()->Object_0, key@) {
                None => Some(Seq::<Seq<char>>::empty()),
                Some(x) => string_or_list(x),
            }) is None,
        },
{
    let k = key.to_owned();
    match find_member(j, &k) {
        None => {
            let v: Vec<String> = Vec::new();
            assert(views(v@) =~= Seq::empty());
            Some(v)
        },
        Some(x) => string_or_strings(x),
    }
}

/// Decodes the system-requirements payload that the setup phase prints.
pub fn decode_sysreqs(stdout: &[u8]) -> (r: Result<SysreqsPayload, DecodeError>)
    ensures
        (match r {
            Ok(p) => Ok(p.view()),
            Err(e) => Err(e),
        }) == decoded(output_text(stdout@), |doc: JsonValue| sysreqs_of(doc)),
{
    let doc = match decode_document(stdout) {
        Ok(d) => d,
        Err(e) => {
            return Err(e);
        },
    };
    if !matches!(doc, Json::Object(_)) {
        return Err(DecodeError::BadShape);
    }
    let scripts = commands_field(&doc, "install_scripts");
    let post = commands_field(&doc, "post_install");
    match (scripts, post) {
        (Some(s), Some(p)) => Ok(SysreqsPayload { install_scripts: s, post_install: p }),
        _ => Err(DecodeError::BadShape),
    }
}

} // verus!
