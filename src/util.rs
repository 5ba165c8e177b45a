//! Small pure helpers shared by the pipeline: the R string literal used in
//! every generated script, the repository name guessed from a locator, and
//! the connection limit passed to `Rscript`.
use vstd::prelude::*;

use crate::text::{
    chars_of, ends_with, in_class, is_space, is_suffix, slice, string_of, strip_end, strip_end_of,
    strip_start, trim, trim_of, CharClass,
};

verus! {

broadcast use vstd::string::group_string_axioms;

/// The characters that stand for `c` inside a single-quoted R literal.
pub open spec fn escaped_char(c: char) -> Seq<char> {
    if c == '\'' {
        seq!['\\', '\'']
    } else if c == '\\' {
        seq!['\\', '\\']
    } else {
        seq![c]
    }
}

/// The body of the R literal for `s`: quotes and backslashes get a backslash.
pub open spec fn escaped(s: Seq<char>) -> Seq<char>
    decreases s.len(),
{
    if s.len() == 0 {
        Seq::empty()
    } else {
        escaped_char(s[0]) + escaped(s.drop_first())
    }
}

/// The single-quoted R string literal for `s`.
pub open spec fn r_literal(s: Seq<char>) -> Seq<char> {
    seq!['\''] + escaped(s) + seq!['\'']
}

/// The text that an escaped literal body stands for; `None` when the body
/// holds a bare quote or a backslash that escapes neither a quote nor a
/// backslash.
pub open spec fn unescaped(b: Seq<char>) -> Option<Seq<char>>
    decreases b.len(),
{
    if b.len() == 0 {
        Some(Seq::empty())
    } else if b[0] == '\\' {
        if b.len() >= 2 && (b[1] == '\\' || b[1] == '\'') {
            match unescaped(b.subrange(2, b.len() as int)) {
                Some(r) => Some(seq![b[1]] + r),
                None => None,
            }
        } else {
            None
        }
    } else if b[0] == '\'' {
        None
    } else {
        match unescaped(b.drop_first()) {
            Some(r) => Some(seq![b[0]] + r),
            None => None,
        }
    }
}

/// The text that a single-quoted R literal stands for, if `lit` is one.
pub open spec fn r_literal_value(lit: Seq<char>) -> Option<Seq<char>> {
    if lit.len() >= 2 && lit[0] == '\'' && lit.last() == '\'' {
        unescaped(lit.subrange(1, lit.len() - 1))
    } else {
        None
    }
}

proof fn lemma_escaped_push(s: Seq<char>, c: char)
    ensures
        escaped(s.push(c)) == escaped(s) + escaped_char(c),
    decreases s.len(),
{
    if s.len() == 0 {
        assert(s.push(c).drop_first() =~= Seq::<char>::empty());
        assert(escaped(s.push(c).drop_first()) =~= Seq::<char>::empty());
        assert(escaped(s.push(c)) =~= escaped_char(c));
    } else {
        assert(s.push(c).drop_first() =~= s.drop_first().push(c));
        lemma_escaped_push(s.drop_first(), c);
        assert(escaped(s.push(c)) =~= escaped(s) + escaped_char(c));
    }
}

/// Returns a single-quoted R string literal with minimal escaping.
pub fn r_string_literal(value: &str) -> (literal: String)
    ensures
        literal@ == r_literal(value@),
{
    let v = chars_of(value);
    let mut literal = String::new();
    literal.push('\'');
    for i in 0..v.len()
        invariant
            literal@ == seq!['\''] + escaped(v@.subrange(0, i as int)),
    {
        proof {
            assert(v@.subrange(0, i + 1) =~= v@.subrange(0, i as int).push(v@[i as int]));
            lemma_escaped_push(v@.subrange(0, i as int), v@[i as int]);
        }
        let ch = v[i];
        if ch == '\'' {
            literal.push('\\');
            literal.push('\'');
        } else if ch == '\\' {
            literal.push('\\');
            literal.push('\\');
        } else {
            literal.push(ch);
        }
        assert(literal@ =~= seq!['\''] + escaped(v@.subrange(0, i + 1)));
    }
    assert(v@.subrange(0, v.len() as int) =~= value@);
    literal.push('\'');
    literal
}

proof fn lemma_unescaped_shift(b: Seq<char>, i: int, out: Seq<char>, n: int, emitted: char)
    requires
        0 <= i < i + n <= b.len(),
        1 <= n <= 2,
        unescaped(b.subrange(i, b.len() as int)) == (match unescaped(
            b.subrange(i + n, b.len() as int),
        ) {
            Some(r) => Some(seq![emitted] + r),
            None => None::<Seq<char>>,
        }),
    ensures
        (match unescaped(b.subrange(i, b.len() as int)) {
            Some(r) => Some(out + r),
            None => None::<Seq<char>>,
        }) == (match unescaped(b.subrange(i + n, b.len() as int)) {
            Some(r) => Some(out.push(emitted) + r),
            None => None::<Seq<char>>,
        }),
{
    match unescaped(b.subrange(i + n, b.len() as int)) {
        Some(r) => {
            assert(out + (seq![emitted] + r) =~= out.push(emitted) + r);
        },
        None => {},
    }
}

/// Reads back the text of a single-quoted R literal written by
/// [`r_string_literal`]; `None` when `literal` is not of that form.
pub fn r_string_value(literal: &str) -> (value: Option<String>)
    ensures
        (match value {
            Some(s) => Some(s@),
            None => None,
        }) == r_literal_value(literal@),
{
    let l = chars_of(literal);
    if l.len() < 2 || l[0] != '\'' || l[l.len() - 1] != '\'' {
        return None;
    }
    let b = slice(&l, 1, l.len() - 1);
    let mut out: Vec<char> = Vec::new();
    let mut i: usize = 0;
    assert(b@.subrange(0, b.len() as int) =~= b@);
    while i < b.len()
        invariant
            i <= b.len(),
            l.len() >= 2,
            l@ == literal@,
            l@[0] == '\'',
            l@.last() == '\'',
            b@ == l@.subrange(1, l.len() - 1),
            unescaped(b@) == (match unescaped(b@.subrange(i as int, b.len() as int)) {
                Some(r) => Some(out@ + r),
                None => None::<Seq<char>>,
            }),
        decreases b.len() - i,
    {
        let c = b[i];
        let sub = Ghost(b@.subrange(i as int, b.len() as int));
        assert(sub@[0] == c);
        if c == '\\' {
            if i + 1 < b.len() && (b[i + 1] == '\\' || b[i + 1] == '\'') {
                let e = b[i + 1];
                proof {
                    assert(sub@.subrange(2, sub@.len() as int) =~= b@.subrange(
                        i + 2,
                        b.len() as int,
                    ));
                    lemma_unescaped_shift(b@, i as int, out@, 2, e);
                }
                out.push(e);
                i += 2;
            } else {
                assert(i + 1 < b.len() ==> sub@[1] == b@[i + 1]);
                assert(unescaped(sub@) is None);
                assert(unescaped(b@) is None);
                assert(r_literal_value(literal@) == unescaped(b@));
                return None;
            }
        } else if c == '\'' {
            assert(unescaped(sub@) is None);
            assert(unescaped(b@) is None);
            assert(r_literal_value(literal@) == unescaped(b@));
            return None;
        } else {
            proof {
                assert(sub@.drop_first() =~= b@.subrange(i + 1, b.len() as int));
                lemma_unescaped_shift(b@, i as int, out@, 1, c);
            }
            out.push(c);
            i += 1;
        }
    }
    assert(b@.subrange(i as int, b.len() as int) =~= Seq::<char>::empty());
    assert(out@ + Seq::<char>::empty() =~= out@);
    Some(string_of(&out))
}

/// Reading back the literal for any text gives that text, quotes and
/// backslashes included.
pub proof fn lemma_r_literal_round_trip(s: Seq<char>)
    ensures
        r_literal_value(r_literal(s)) == Some(s),
{
    let lit = r_literal(s);
    assert(lit.subrange(1, lit.len() - 1) =~= escaped(s));
    lemma_unescaped_escaped(s);
}

proof fn lemma_unescaped_escaped(s: Seq<char>)
    ensures
        unescaped(escaped(s)) == Some(s),
    decreases s.len(),
{
    if s.len() == 0 {
    } else {
        let e = escaped(s);
        let rest = escaped(s.drop_first());
        lemma_unescaped_escaped(s.drop_first());
        let c = s[0];
        if c == '\'' || c == '\\' {
            assert(e.subrange(2, e.len() as int) =~= rest);
        } else {
            assert(e.drop_first() =~= rest);
        }
        assert(seq![c] + s.drop_first() =~= s);
    }
}

pub open spec fn is_locator_sep(c: char) -> bool {
    c == '/' || c == ':'
}

/// Where the last segment of `s` begins: just after its last `/` or `:`.
pub open spec fn tail_start(s: Seq<char>) -> int
    decreases s.len(),
{
    if s.len() == 0 {
        0
    } else if is_locator_sep(s.last()) {
        s.len() as int
    } else {
        tail_start(s.drop_last())
    }
}

/// The repository name that a locator suggests: white space and trailing
/// slashes go, then the segment after the last `/` or `:` is taken and one
/// `.git` suffix is dropped from it; `None` when nothing is left.
pub open spec fn repo_name(spec: Seq<char>) -> Option<Seq<char>> {
    let t = strip_end(trim(spec), CharClass::Is('/'));
    let tail = t.subrange(tail_start(t), t.len() as int);
    let name = if is_suffix(".git"@, tail) {
        tail.subrange(0, tail.len() - 4)
    } else {
        tail
    };
    if t.len() == 0 || name.len() == 0 {
        None
    } else {
        Some(name)
    }
}

/// Extracts a plausible repository name from a git URL or path-like string.
///
/// The function strips trailing `.git` suffixes and handles SSH-style URLs.
pub fn guess_repo_name(spec: &str) -> (name: Option<String>)
    ensures
        (match name {
            Some(n) => Some(n@),
            None => None,
        }) == repo_name(spec@),
{
    let v = chars_of(spec);
    let trimmed = trim_of(&v);
    let t = strip_end_of(&trimmed, CharClass::Is('/'));
    if t.len() == 0 {
        return None;
    }
    let mut j: usize = t.len();
    assert(t@.subrange(0, j as int) =~= t@);
    while j > 0 && t[j - 1] != '/' && t[j - 1] != ':'
        invariant
            j <= t.len(),
            tail_start(t@) == tail_start(t@.subrange(0, j as int)),
        decreases j,
    {
        assert(t@.subrange(0, j as int).drop_last() =~= t@.subrange(0, j - 1));
        j -= 1;
    }
    let tail = slice(&t, j, t.len());
    let git = chars_of(".git");
    proof {
        reveal_strlit(".git");
    }
    let candidate = if ends_with(&tail, &git) {
        slice(&tail, 0, tail.len() - 4)
    } else {
        tail
    };
    if candidate.len() == 0 {
        None
    } else {
        Some(string_of(&candidate))
    }
}

proof fn lemma_strip_start_concat(s: Seq<char>, t: Seq<char>, k: CharClass)
    ensures
        strip_start(s + t, k) == (if strip_start(s, k).len() > 0 {
            strip_start(s, k) + t
        } else {
            strip_start(t, k)
        }),
    decreases s.len(),
{
    if s.len() == 0 {
        assert(s + t =~= t);
    } else {
        assert((s + t).drop_first() =~= s.drop_first() + t);
        assert((s + t)[0] == s[0]);
        lemma_strip_start_concat(s.drop_first(), t, k);
    }
}

proof fn lemma_strip_start_is_suffix(s: Seq<char>, k: CharClass)
    ensures
        strip_start(s, k).len() <= s.len(),
        strip_start(s, k) == s.subrange(s.len() - strip_start(s, k).len(), s.len() as int),
    decreases s.len(),
{
    if s.len() > 0 && in_class(k, s[0]) {
        lemma_strip_start_is_suffix(s.drop_first(), k);
        let r = strip_start(s, k);
        assert(s.drop_first().subrange(s.len() - 1 - r.len(), s.len() - 1) =~= s.subrange(
            s.len() - r.len(),
            s.len() as int,
        ));
    } else {
        assert(s.subrange(0, s.len() as int) =~= s);
    }
}

proof fn lemma_tail_start_after_sep(q: Seq<char>, m: Seq<char>)
    requires
        q.len() > 0,
        is_locator_sep(q.last()),
        forall|i: int| 0 <= i < m.len() ==> !is_locator_sep(#[trigger] m[i]),
    ensures
        tail_start(q + m) == q.len(),
    decreases m.len(),
{
    if m.len() == 0 {
        assert(q + m =~= q);
    } else {
        assert((q + m).drop_last() =~= q + m.drop_last());
        assert((q + m).last() == m.last());
        lemma_tail_start_after_sep(q, m.drop_last());
    }
}

/// For a locator `p`, a separator and a last segment `m` free of
/// separators that ends in a non-space character, the trimmed text keeps
/// its end and its last segment is `m`.
proof fn lemma_locator_last_segment(p: Seq<char>, sep: char, m: Seq<char>)
    requires
        is_locator_sep(sep),
        m.len() > 0,
        !is_space(m.last()),
        forall|i: int| 0 <= i < m.len() ==> !is_locator_sep(#[trigger] m[i]),
    ensures
        ({
            let t = strip_end(trim(p.push(sep) + m), CharClass::Is('/'));
            t.len() > 0 && t.subrange(tail_start(t), t.len() as int) == m
        }),
{
    let x = p.push(sep) + m;
    lemma_strip_start_concat(p, seq![sep], CharClass::Space);
    assert(p + seq![sep] =~= p.push(sep));
    let q = if strip_start(p, CharClass::Space).len() > 0 {
        strip_start(p, CharClass::Space)
    } else {
        Seq::empty()
    };
    assert(strip_start(seq![sep], CharClass::Space) == seq![sep]);
    assert(strip_start(p.push(sep), CharClass::Space) =~= q.push(sep));
    lemma_strip_start_concat(p.push(sep), m, CharClass::Space);
    let y = q.push(sep) + m;
    assert(strip_start(x, CharClass::Space) == y);
    assert(y.last() == m.last());
    assert(trim(x) == y);
    assert(m.last() != '/') by {
        assert(!is_locator_sep(m[m.len() - 1]));
    }
    assert(strip_end(y, CharClass::Is('/')) == y);
    lemma_tail_start_after_sep(q.push(sep), m);
    assert(y.subrange(tail_start(y), y.len() as int) =~= m);
}

/// A slash after a locator that does not end in white space changes
/// nothing: `guess_repo_name(s + "/") == guess_repo_name(s)`.
pub proof fn lemma_repo_name_trailing_slash(s: Seq<char>)
    requires
        s.len() == 0 || !is_space(s.last()),
    ensures
        repo_name(s.push('/')) == repo_name(s),
{
    let y = strip_start(s, CharClass::Space);
    lemma_strip_start_concat(s, seq!['/'], CharClass::Space);
    assert(s + seq!['/'] =~= s.push('/'));
    lemma_strip_start_is_suffix(s, CharClass::Space);
    if y.len() > 0 {
        assert(y.last() == s.last());
        assert(strip_start(s.push('/'), CharClass::Space) =~= y.push('/'));
        assert(trim(s.push('/')) == y.push('/'));
        assert(y.push('/').drop_last() =~= y);
        assert(strip_end(y.push('/'), CharClass::Is('/')) == strip_end(y, CharClass::Is('/')));
        assert(trim(s) == y);
    } else {
        assert(strip_start(seq!['/'], CharClass::Space) == seq!['/']);
        assert(seq!['/'].drop_last() =~= Seq::<char>::empty());
        assert(seq!['/'].last() == '/');
        assert(strip_end(Seq::<char>::empty(), CharClass::Is('/')) =~= Seq::<char>::empty());
        assert(strip_end(seq!['/'], CharClass::Is('/')) =~= Seq::<char>::empty());
        assert(trim(s) =~= Seq::<char>::empty());
    }
}

/// The name of a repository is its last segment, with or without `.git`
/// and a trailing slash: for a separator (`/` or `:`) and a segment `n`
/// that holds no separator, does not end in white space and does not end
/// in `.git`, the locators `p/n`, `p/n.git` and `p/n.git/` all name `n`.
pub proof fn lemma_repo_name_of_locator(p: Seq<char>, sep: char, n: Seq<char>)
    requires
        is_locator_sep(sep),
        n.len() > 0,
        !is_space(n.last()),
        !is_suffix(".git"@, n),
        forall|i: int| 0 <= i < n.len() ==> !is_locator_sep(#[trigger] n[i]),
    ensures
        repo_name(p.push(sep) + n) == Some(n),
        repo_name(p.push(sep) + n + ".git"@) == Some(n),
        repo_name((p.push(sep) + n + ".git"@).push('/')) == Some(n),
{
    reveal_strlit(".git");
    lemma_locator_last_segment(p, sep, n);
    let m = n + ".git"@;
    assert(m.last() == 't');
    assert forall|i: int| 0 <= i < m.len() implies !is_locator_sep(#[trigger] m[i]) by {
        if i >= n.len() {
            assert(m[i] == ".git"@[i - n.len()]);
        } else {
            assert(m[i] == n[i]);
        }
    }
    lemma_locator_last_segment(p, sep, m);
    assert(p.push(sep) + n + ".git"@ =~= p.push(sep) + m);
    assert(m.subrange(m.len() - 4, m.len() as int) =~= ".git"@);
    assert(m.subrange(0, m.len() - 4) =~= n);
    lemma_repo_name_trailing_slash(p.push(sep) + m);
}

/// The connection limit for `Rscript`:
/// `min(4096, ceil(max(128, 3 * cpus + 64) / 128) * 128)`, counting at
/// least one CPU.
pub open spec fn max_connections(cpus: int) -> int {
    let c = if cpus < 1 {
        1
    } else {
        cpus
    };
    let base = if 3 * c + 64 < 128 {
        128
    } else {
        3 * c + 64
    };
    let rounded = (base + 127) / 128 * 128;
    if rounded < 4096 {
        rounded
    } else {
        4096
    }
}

/// Computes the appropriate value for R's `--max-connections` flag given the
/// available CPU count.
pub fn optimal_max_connections(num_cpus: usize) -> (r: usize)
    ensures
        r == max_connections(num_cpus as int),
{
    let cpus: u64 = if num_cpus < 1 {
        1
    } else if num_cpus >= 1344 {
        return 4096;
    } else {
        num_cpus as u64
    };
    let base: u64 = if 3 * cpus + 64 < 128 {
        128
    } else {
        3 * cpus + 64
    };
    let rounded: u64 = (base + 127) / 128 * 128;
    if rounded < 4096 {
        rounded as usize
    } else {
        4096
    }
}

} // verus!
