//! Character-level helpers over `Vec<char>`, each proved against a spec
//! function on `Seq<char>`.
use vstd::prelude::*;

verus! {

broadcast use vstd::string::group_string_axioms;

pub assume_specification[ String::push ](string: &mut String, ch: char)
    ensures
        final(string)@ == old(string)@.push(ch),
;

/// The characters that a trimming step removes.
#[derive(Clone, Copy, PartialEq, Eq, Structural)]
pub enum CharClass {
    /// Unicode white space, as `char::is_whitespace` sees it.
    Space,
    /// One given character.
    Is(char),
}

/// The code points with the Unicode `White_Space` property.
pub open spec fn is_space(c: char) -> bool {
    let u = c as u32;
    (9 <= u <= 13) || u == 32 || u == 0x85 || u == 0xa0 || u == 0x1680 || (0x2000 <= u
        <= 0x200a) || u == 0x2028 || u == 0x2029 || u == 0x202f || u == 0x205f || u == 0x3000
}

pub open spec fn in_class(class: CharClass, c: char) -> bool {
    match class {
        CharClass::Space => is_space(c),
        CharClass::Is(d) => c == d,
    }
}

/// `s` without the characters of `class` at its start.
pub open spec fn strip_start(s: Seq<char>, class: CharClass) -> Seq<char>
    decreases s.len(),
{
    if s.len() > 0 && in_class(class, s[0]) {
        strip_start(s.drop_first(), class)
    } else {
        s
    }
}

/// `s` without the characters of `class` at its end.
pub open spec fn strip_end(s: Seq<char>, class: CharClass) -> Seq<char>
    decreases s.len(),
{
    if s.len() > 0 && in_class(class, s.last()) {
        strip_end(s.drop_last(), class)
    } else {
        s
    }
}

/// `s` without white space at either end (`str::trim`).
pub open spec fn trim(s: Seq<char>) -> Seq<char> {
    strip_end(strip_start(s, CharClass::Space), CharClass::Space)
}

/// `s` without `c` repeated at either end (`str::trim_matches`).
pub open spec fn trim_char(s: Seq<char>, c: char) -> Seq<char> {
    strip_end(strip_start(s, CharClass::Is(c)), CharClass::Is(c))
}

pub open spec fn is_prefix(p: Seq<char>, s: Seq<char>) -> bool {
    p.len() <= s.len() && s.subrange(0, p.len() as int) == p
}

pub open spec fn is_suffix(p: Seq<char>, s: Seq<char>) -> bool {
    p.len() <= s.len() && s.subrange(s.len() - p.len(), s.len() as int) == p
}

/// `s` holds `p` somewhere, starting at index `i`.
pub open spec fn occurs_at(p: Seq<char>, s: Seq<char>, i: int) -> bool {
    0 <= i && i + p.len() <= s.len() && s.subrange(i, i + p.len()) == p
}

pub open spec fn contains(s: Seq<char>, p: Seq<char>) -> bool {
    exists|i: int| occurs_at(p, s, i)
}

/// The index of the first `c` in `s`, or `s.len()` when there is none.
pub open spec fn index_of(s: Seq<char>, c: char) -> int
    decreases s.len(),
{
    if s.len() == 0 {
        0
    } else if s[0] == c {
        0
    } else {
        1 + index_of(s.drop_first(), c)
    }
}

pub open spec fn ascii_lower(c: char) -> char {
    if 'A' <= c && c <= 'Z' {
        ((c as u32) + 32) as char
    } else {
        c
    }
}

pub fn is_in_class(class: CharClass, c: char) -> (r: bool)
    ensures
        r == in_class(class, c),
{
    match class {
        CharClass::Space => {
            let u = c as u32;
            (9 <= u && u <= 13) || u == 32 || u == 0x85 || u == 0xa0 || u == 0x1680 || (0x2000
                <= u && u <= 0x200a) || u == 0x2028 || u == 0x2029 || u == 0x202f || u == 0x205f
                || u == 0x3000
        },
        CharClass::Is(d) => c == d,
    }
}

/// The characters of `s`, in order.
pub fn chars_of(s: &str) -> (r: Vec<char>)
    ensures
        r@ == s@,
{
    let mut r: Vec<char> = Vec::new();
    for c in it: s.chars()
        invariant
            r@ == it.seq().subrange(0, it.index() as int),
            it.seq() == s@,
    {
        r.push(c);
    }
    r
}

/// A `String` holding the characters of `v`.
pub fn string_of(v: &Vec<char>) -> (r: String)
    ensures
        r@ == v@,
{
    let mut r = String::new();
    for i in 0..v.len()
        invariant
            r@ == v@.subrange(0, i as int),
    {
        r.push(v[i]);
    }
    r
}

/// The characters of `v` from `a` up to `b`.
pub fn slice(v: &Vec<char>, a: usize, b: usize) -> (r: Vec<char>)
    requires
        a <= b <= v.len(),
    ensures
        r@ == v@.subrange(a as int, b as int),
{
    let mut r: Vec<char> = Vec::new();
    for i in a..b
        invariant
            a <= i <= b <= v.len(),
            r@ == v@.subrange(a as int, i as int),
    {
        r.push(v[i]);
    }
    r
}

/// `a` followed by `b`.
pub fn concat(a: &Vec<char>, b: &Vec<char>) -> (r: Vec<char>)
    ensures
        r@ == a@ + b@,
{
    let mut r = slice(a, 0, a.len());
    for i in 0..b.len()
        invariant
            r@ == a@ + b@.subrange(0, i as int),
    {
        r.push(b[i]);
    }
    r
}

proof fn lemma_strip_start_step(s: Seq<char>, i: int, class: CharClass)
    requires
        0 <= i < s.len(),
        in_class(class, s[i]),
    ensures
        strip_start(s.subrange(i, s.len() as int), class) == strip_start(
            s.subrange(i + 1, s.len() as int),
            class,
        ),
{
    assert(s.subrange(i, s.len() as int).drop_first() =~= s.subrange(i + 1, s.len() as int));
}

proof fn lemma_strip_end_step(s: Seq<char>, j: int, class: CharClass)
    requires
        0 < j <= s.len(),
        in_class(class, s[j - 1]),
    ensures
        strip_end(s.subrange(0, j), class) == strip_end(s.subrange(0, j - 1), class),
{
    assert(s.subrange(0, j).drop_last() =~= s.subrange(0, j - 1));
}

/// Where `strip_start` would begin on `v`.
pub fn strip_start_index(v: &Vec<char>, class: CharClass) -> (i: usize)
    ensures
        i <= v.len(),
        strip_start(v@, class) == v@.subrange(i as int, v.len() as int),
{
    let mut i: usize = 0;
    assert(v@.subrange(0, v.len() as int) =~= v@);
    while i < v.len() && is_in_class(class, v[i])
        invariant
            i <= v.len(),
            strip_start(v@, class) == strip_start(v@.subrange(i as int, v.len() as int), class),
        decreases v.len() - i,
    {
        proof {
            lemma_strip_start_step(v@, i as int, class);
        }
        i += 1;
    }
    i
}

/// Where `strip_end` would stop on `v`.
pub fn strip_end_index(v: &Vec<char>, class: CharClass) -> (j: usize)
    ensures
        j <= v.len(),
        strip_end(v@, class) == v@.subrange(0, j as int),
{
    let mut j: usize = v.len();
    assert(v@.subrange(0, j as int) =~= v@);
    while j > 0 && is_in_class(class, v[j - 1])
        invariant
            j <= v.len(),
            strip_end(v@, class) == strip_end(v@.subrange(0, j as int), class),
        decreases j,
    {
        proof {
            lemma_strip_end_step(v@, j as int, class);
        }
        j -= 1;
    }
    j
}

/// `str::trim_start` and its kin on a character vector.
pub fn strip_start_of(v: &Vec<char>, class: CharClass) -> (r: Vec<char>)
    ensures
        r@ == strip_start(v@, class),
{
    let i = strip_start_index(v, class);
    slice(v, i, v.len())
}

/// `str::trim_end` and its kin on a character vector.
pub fn strip_end_of(v: &Vec<char>, class: CharClass) -> (r: Vec<char>)
    ensures
        r@ == strip_end(v@, class),
{
    let j = strip_end_index(v, class);
    slice(v, 0, j)
}

/// `str::trim` on a character vector.
pub fn trim_of(v: &Vec<char>) -> (r: Vec<char>)
    ensures
        r@ == trim(v@),
{
    let s = strip_start_of(v, CharClass::Space);
    strip_end_of(&s, CharClass::Space)
}

/// `str::trim_matches` with one character, on a character vector.
pub fn trim_char_of(v: &Vec<char>, c: char) -> (r: Vec<char>)
    ensures
        r@ == trim_char(v@, c),
{
    let s = strip_start_of(v, CharClass::Is(c));
    strip_end_of(&s, CharClass::Is(c))
}

/// Whether `v` and `w` hold the same characters.
pub fn same_chars(v: &Vec<char>, w: &Vec<char>) -> (r: bool)
    ensures
        r == (v@ == w@),
{
    if v.len() != w.len() {
        return false;
    }
    for i in 0..v.len()
        invariant
            v.len() == w.len(),
            forall|k: int| 0 <= k < i ==> v@[k] == w@[k],
    {
        if v[i] != w[i] {
            return false;
        }
    }
    assert(v@ =~= w@);
    true
}

/// Whether `p` occurs in `v` at index `i`.
pub fn occurs_at_index(p: &Vec<char>, v: &Vec<char>, i: usize) -> (r: bool)
    ensures
        r == occurs_at(p@, v@, i as int),
{
    if i > v.len() || p.len() > v.len() - i {
        return false;
    }
    for k in 0..p.len()
        invariant
            i + p.len() <= v.len(),
            forall|m: int| 0 <= m < k ==> v@[i + m] == p@[m],
    {
        if v[i + k] != p[k] {
            assert(v@.subrange(i as int, i + p.len())[k as int] != p@[k as int]);
            return false;
        }
    }
    assert(v@.subrange(i as int, i + p.len()) =~= p@);
    true
}

/// `str::starts_with` on character vectors.
pub fn starts_with(v: &Vec<char>, p: &Vec<char>) -> (r: bool)
    ensures
        r == is_prefix(p@, v@),
{
    occurs_at_index(p, v, 0)
}

/// `str::ends_with` on character vectors.
pub fn ends_with(v: &Vec<char>, p: &Vec<char>) -> (r: bool)
    ensures
        r == is_suffix(p@, v@),
{
    if p.len() > v.len() {
        return false;
    }
    occurs_at_index(p, v, v.len() - p.len())
}

/// `str::contains` on character vectors.
pub fn contains_chars(v: &Vec<char>, p: &Vec<char>) -> (r: bool)
    ensures
        r == contains(v@, p@),
{
    if p.len() > v.len() {
        assert forall|i: int| !occurs_at(p@, v@, i) by {}
        return false;
    }
    let last = v.len() - p.len();
    let mut i: usize = 0;
    loop
        invariant
            i <= last,
            last + p.len() == v.len(),
            forall|k: int| 0 <= k < i ==> !occurs_at(p@, v@, k),
        ensures
            forall|k: int| 0 <= k <= last ==> !occurs_at(p@, v@, k),
        decreases last - i,
    {
        if occurs_at_index(p, v, i) {
            return true;
        }
        if i == last {
            break;
        }
        i += 1;
    }
    assert forall|k: int| !occurs_at(p@, v@, k) by {
        if 0 <= k && k + p.len() <= v.len() {
            assert(k <= last);
        }
    }
    false
}

proof fn lemma_index_of_is_first(s: Seq<char>, c: char, i: int)
    requires
        0 <= i <= s.len(),
        i < s.len() ==> s[i] == c,
        forall|k: int| 0 <= k < i ==> s[k] != c,
    ensures
        index_of(s, c) == i,
    decreases s.len(),
{
    if s.len() > 0 && s[0] != c {
        assert forall|k: int| 0 <= k < i - 1 implies s.drop_first()[k] != c by {
            assert(s[k + 1] != c);
        }
        lemma_index_of_is_first(s.drop_first(), c, i - 1);
    }
}

/// The index of the first `c` in `v`, or its length.
pub fn index_of_char(v: &Vec<char>, c: char) -> (r: usize)
    ensures
        r == index_of(v@, c),
        r <= v.len(),
        r < v.len() ==> v@[r as int] == c,
        forall|k: int| 0 <= k < r ==> v@[k] != c,
{
    let mut i: usize = 0;
    while i < v.len() && v[i] != c
        invariant
            i <= v.len(),
            forall|k: int| 0 <= k < i ==> v@[k] != c,
        decreases v.len() - i,
    {
        i += 1;
    }
    proof {
        lemma_index_of_is_first(v@, c, i as int);
    }
    i
}

/// `str::to_ascii_lowercase` on a character vector.
pub fn ascii_lower_of(v: &Vec<char>) -> (r: Vec<char>)
    ensures
        r@ == v@.map_values(|c: char| ascii_lower(c)),
{
    let mut r: Vec<char> = Vec::new();
    for i in 0..v.len()
        invariant
            r@ =~= v@.subrange(0, i as int).map_values(|c: char| ascii_lower(c)),
    {
        let c = v[i];
        let l = if 'A' <= c && c <= 'Z' {
            char_from_u32_ascii((c as u32) + 32)
        } else {
            c
        };
        r.push(l);
    }
    assert(v@.subrange(0, v.len() as int) =~= v@);
    r
}

fn char_from_u32_ascii(u: u32) -> (c: char)
    requires
        u < 128,
    ensures
        c == u as char,
{
    let b = u as u8;
    b as char
}

/// What `str::to_lowercase` makes of `s`.
pub uninterp spec fn lower_of(s: Seq<char>) -> Seq<char>;

/// Relies on `str::to_lowercase`: the result depends on the characters
/// alone.
#[verifier::external_body]
pub fn to_lowercase(s: &str) -> (r: String)
    ensures
        r@ == lower_of(s@),
{
    s.to_lowercase()
}

/// `s` cut at each `'\n'`; the text after the last one is a line too, so
/// `"a\nb\n"` gives `"a"`, `"b"` and `""`.
pub open spec fn split_lines(s: Seq<char>) -> Seq<Seq<char>>
    decreases s.len(),
{
    if s.len() == 0 {
        seq![Seq::empty()]
    } else if s.last() == '\n' {
        split_lines(s.drop_last()).push(Seq::empty())
    } else {
        let ls = split_lines(s.drop_last());
        ls.update(ls.len() - 1, ls.last().push(s.last()))
    }
}

proof fn lemma_split_lines_nonempty(s: Seq<char>)
    ensures
        split_lines(s).len() > 0,
    decreases s.len(),
{
    if s.len() > 0 {
        lemma_split_lines_nonempty(s.drop_last());
    }
}

pub open spec fn char_views(v: Seq<Vec<char>>) -> Seq<Seq<char>> {
    v.map_values(|l: Vec<char>| l@)
}

/// The lines of `v`, as [`split_lines`] cuts them.
pub fn lines_of(v: &Vec<char>) -> (r: Vec<Vec<char>>)
    ensures
        char_views(r@) == split_lines(v@),
{
    let mut done: Vec<Vec<char>> = Vec::new();
    let mut current: Vec<char> = Vec::new();
    assert(v@.subrange(0, 0) =~= Seq::<char>::empty());
    assert(char_views(done@).push(current@) =~= split_lines(v@.subrange(0, 0)));
    for i in 0..v.len()
        invariant
            char_views(done@).push(current@) == split_lines(v@.subrange(0, i as int)),
    {
        let c = v[i];
        let ghost prev = v@.subrange(0, i as int);
        assert(v@.subrange(0, i + 1).drop_last() =~= prev);
        proof {
            lemma_split_lines_nonempty(prev);
        }
        let ghost d0 = char_views(done@);
        let ghost c0 = current@;
        if c == '\n' {
            let line = slice(&current, 0, current.len());
            assert(line@ =~= c0);
            let ghost done0 = done@;
            done.push(line);
            assert(done@ == done0.push(line));
            current = Vec::new();
            assert(char_views(done@) =~= d0.push(c0));
            assert(char_views(done@).push(current@) =~= split_lines(prev).push(Seq::empty()));
        } else {
            current.push(c);
            assert(char_views(done@).push(current@) =~= split_lines(prev).update(
                split_lines(prev).len() - 1,
                split_lines(prev).last().push(c),
            ));
        }
    }
    assert(v@.subrange(0, v.len() as int) =~= v@);
    done.push(current);
    done
}

/// The decimal digits of `n`, most significant first, without leading zeros.
pub open spec fn decimal(n: nat) -> Seq<char>
    decreases n,
{
    if n < 10 {
        seq![digit_char(n)]
    } else {
        decimal(n / 10).push(digit_char(n % 10))
    }
}

pub open spec fn digit_char(d: nat) -> char {
    ((d + 48) as u32) as char
}

/// `n` written in decimal.
pub fn decimal_of(n: u64) -> (r: Vec<char>)
    ensures
        r@ == decimal(n as nat),
    decreases n,
{
    if n < 10 {
        let mut r: Vec<char> = Vec::new();
        r.push(char_from_u32_ascii((n as u32) + 48));
        r
    } else {
        let mut r = decimal_of(n / 10);
        r.push(char_from_u32_ascii(((n % 10) as u32) + 48));
        r
    }
}

} // verus!
