//! The one-line grammars of the line-oriented formats: what a line says, as a
//! key and a raw value, and how a key and a value are written as a line.

use vstd::prelude::*;

verus! {

/// The kinds of character that the grammars scan runs of.
#[derive(Clone, Copy, PartialEq, Eq, Structural)]
pub enum Class {
    /// White space other than a line feed: every Unicode white-space
    /// character (space, tab, carriage return, vertical tab, form feed, the
    /// Unicode spaces and separators) but `\n`.
    Space,
    /// ASCII letters, digits and `_`.
    Ident,
    /// ASCII letters, digits, `_` and `-`.
    Name,
    /// ASCII letters, digits and `#`.
    Hexish,
    /// Anything but `"`.
    NotQuote,
    /// Anything but `)`.
    NotParen,
    /// Anything but `;`.
    NotSemi,
    /// White space, line feeds included: every Unicode white-space character.
    Blank,
    /// ASCII digits.
    Digit,
    /// ASCII hexadecimal digits.
    HexDigit,
    /// Anything but `}`.
    NotBrace,
    /// `#`.
    Hash,
    /// ASCII letters, digits and `-`.
    Kebab,
}

/// The line syntaxes.
#[derive(Clone, Copy, PartialEq, Eq, Structural)]
pub enum Syntax {
    /// `theme[key]="value"`
    Bracketed,
    /// `$key = rgba(value)`
    Macro,
    /// `@define-color key value;`
    DefineColor,
    /// `key=value`
    KeyValue,
    /// `key = "value"`, a TOML string assignment; such files are read by a
    /// TOML parser, not line by line, so no line states an entry in it.
    TomlString,
}

pub open spec fn is_alnum(c: char) -> bool {
    ('a' <= c && c <= 'z') || ('A' <= c && c <= 'Z') || ('0' <= c && c <= '9')
}

/// A Unicode white-space character other than the line feed.
pub open spec fn is_space(c: char) -> bool {
    c == ' ' || c == '\t' || c == '\r' || c == '\u{0B}' || c == '\u{0C}' || c == '\u{85}' || c
        == '\u{A0}' || c == '\u{1680}' || ('\u{2000}' <= c && c <= '\u{200A}') || c == '\u{2028}'
        || c == '\u{2029}' || c == '\u{202F}' || c == '\u{205F}' || c == '\u{3000}'
}

pub open spec fn in_class(c: char, k: Class) -> bool {
    match k {
        Class::Space => is_space(c),
        Class::Ident => is_alnum(c) || c == '_',
        Class::Name => is_alnum(c) || c == '_' || c == '-',
        Class::Hexish => is_alnum(c) || c == '#',
        Class::NotQuote => c != '"',
        Class::NotParen => c != ')',
        Class::NotSemi => c != ';',
        Class::Blank => is_space(c) || c == '\n',
        Class::Digit => '0' <= c && c <= '9',
        Class::HexDigit => ('0' <= c && c <= '9') || ('a' <= c && c <= 'f') || ('A' <= c && c
            <= 'F'),
        Class::NotBrace => c != '}',
        Class::Hash => c == '#',
        Class::Kebab => is_alnum(c) || c == '-',
    }
}

pub fn in_class_exec(c: char, k: Class) -> (r: bool)
    ensures
        r == in_class(c, k),
{
    let alnum = ('a' <= c && c <= 'z') || ('A' <= c && c <= 'Z') || ('0' <= c && c <= '9');
    let space = c == ' ' || c == '\t' || c == '\r' || c == '\u{0B}' || c == '\u{0C}' || c
        == '\u{85}' || c == '\u{A0}' || c == '\u{1680}' || ('\u{2000}' <= c && c <= '\u{200A}')
        || c == '\u{2028}' || c == '\u{2029}' || c == '\u{202F}' || c == '\u{205F}' || c
        == '\u{3000}';
    match k {
        Class::Space => space,
        Class::Ident => alnum || c == '_',
        Class::Name => alnum || c == '_' || c == '-',
        Class::Hexish => alnum || c == '#',
        Class::NotQuote => c != '"',
        Class::NotParen => c != ')',
        Class::NotSemi => c != ';',
        Class::Blank => space || c == '\n',
        Class::Digit => '0' <= c && c <= '9',
        Class::HexDigit => ('0' <= c && c <= '9') || ('a' <= c && c <= 'f') || ('A' <= c && c
            <= 'F'),
        Class::NotBrace => c != '}',
        Class::Hash => c == '#',
        Class::Kebab => alnum || c == '-',
    }
}

/// The end of the run of `k` characters of `l` that starts at `i`.
pub open spec fn run_end(l: Seq<char>, i: int, k: Class) -> int
    decreases l.len() - i,
{
    if i < 0 || i >= l.len() {
        i
    } else if in_class(l[i], k) {
        run_end(l, i + 1, k)
    } else {
        i
    }
}

/// The end of `l[lo..hi]` once trailing characters of class `c` are dropped.
pub open spec fn trim_end(l: Seq<char>, lo: int, hi: int, c: Class) -> int
    decreases hi - lo,
{
    if hi > lo && in_class(l[hi - 1], c) {
        trim_end(l, lo, hi - 1, c)
    } else {
        hi
    }
}

/// `w` stands in `l` at `i`.
pub open spec fn word_at(l: Seq<char>, i: int, w: Seq<char>) -> bool {
    0 <= i && i + w.len() <= l.len() && l.subrange(i, i + w.len()) == w
}


pub open spec fn theme_word() -> Seq<char> {
    seq!['t', 'h', 'e', 'm', 'e', '[']
}

pub open spec fn define_word() -> Seq<char> {
    seq!['@', 'd', 'e', 'f', 'i', 'n', 'e', '-', 'c', 'o', 'l', 'o', 'r']
}

/// `rgba(` at `i`, the letters in either case.
pub open spec fn rgba_at(l: Seq<char>, i: int) -> bool {
    0 <= i && i + 5 <= l.len() && (l[i] == 'r' || l[i] == 'R') && (l[i + 1] == 'g' || l[i + 1]
        == 'G') && (l[i + 2] == 'b' || l[i + 2] == 'B') && (l[i + 3] == 'a' || l[i + 3] == 'A')
        && l[i + 4] == '('
}

/// `theme[key]="value"`, with white space allowed around `=` and at both ends.
pub open spec fn bracketed_entry(l: Seq<char>) -> Option<(Seq<char>, Seq<char>)> {
    let a = run_end(l, 0, Class::Space);
    let b = a + 6;
    let c = run_end(l, b, Class::Ident);
    let d = run_end(l, c + 1, Class::Space);
    let e = run_end(l, d + 1, Class::Space);
    let f = run_end(l, e + 1, Class::NotQuote);
    if word_at(l, a, theme_word()) && c > b && c < l.len() && l[c] == ']' && d < l.len() && l[d]
        == '=' && e < l.len() && l[e] == '"' && f < l.len() && run_end(l, f + 1, Class::Space)
        == l.len() {
        Some((l.subrange(b, c), l.subrange(e + 1, f)))
    } else {
        None
    }
}

/// `$key = rgba(value)`, white space allowed around every token; the value is
/// kept without its surrounding white space.
pub open spec fn macro_entry(l: Seq<char>) -> Option<(Seq<char>, Seq<char>)> {
    let a = run_end(l, 0, Class::Space);
    let b = a + 1;
    let c = run_end(l, b, Class::Ident);
    let d = run_end(l, c, Class::Space);
    let e = run_end(l, d + 1, Class::Space);
    let f = run_end(l, e + 5, Class::Space);
    let g = run_end(l, f, Class::NotParen);
    let h = trim_end(l, f, g, Class::Space);
    if a < l.len() && l[a] == '$' && c > b && d < l.len() && l[d] == '=' && rgba_at(l, e) && g
        < l.len() && run_end(l, g + 1, Class::Space) == l.len() && h > f {
        Some((l.subrange(b, c), l.subrange(f, h)))
    } else {
        None
    }
}

/// `@define-color name value;`, the value kept without surrounding white space;
/// white space between the tokens may hold line feeds, and so may the value.
pub open spec fn define_entry(l: Seq<char>) -> Option<(Seq<char>, Seq<char>)> {
    let a = run_end(l, 0, Class::Space);
    let b = a + 13;
    let c = run_end(l, b, Class::Blank);
    let d = run_end(l, c, Class::Name);
    let e = run_end(l, d, Class::Blank);
    let f = run_end(l, e, Class::NotSemi);
    let h = trim_end(l, e, f, Class::Blank);
    if word_at(l, a, define_word()) && c > b && d > c && e > d && f < l.len() && h > e {
        Some((l.subrange(c, d), l.subrange(e, h)))
    } else {
        None
    }
}

/// A declaration that `cur` begins and no `;` has ended yet: the text that
/// follows a line feed still belongs to it.
pub open spec fn open_decl(cur: Seq<char>) -> bool {
    word_at(cur, run_end(cur, 0, Class::Space), define_word()) && run_end(cur, 0, Class::NotSemi)
        == cur.len()
}

/// The finished units and the unfinished one after reading `t[..n]` in
/// syntax `s`: a unit is a line, but for declarations a line feed inside an
/// open declaration does not end it.
pub open spec fn unit_state(s: Syntax, t: Seq<char>, n: int) -> (Seq<Seq<char>>, Seq<char>)
    decreases n,
{
    if n <= 0 {
        (Seq::empty(), Seq::empty())
    } else {
        let (ls, cur) = unit_state(s, t, n - 1);
        if t[n - 1] == '\n' && !(s == Syntax::DefineColor && open_decl(cur)) {
            (ls.push(cur), Seq::empty())
        } else {
            (ls, cur.push(t[n - 1]))
        }
    }
}

/// The units of `t` that syntax `s` reads one by one.
pub open spec fn units_of(s: Syntax, t: Seq<char>) -> Seq<Seq<char>> {
    let (ls, cur) = unit_state(s, t, t.len() as int);
    if cur.len() == 0 {
        ls
    } else {
        ls.push(cur)
    }
}

/// `key=value`, where the value is the run of letters, digits and `#` after
/// `=`; what follows it is not read.
pub open spec fn key_value_entry(l: Seq<char>) -> Option<(Seq<char>, Seq<char>)> {
    let a = run_end(l, 0, Class::Space);
    let b = run_end(l, a, Class::Name);
    let c = run_end(l, b, Class::Space);
    let d = run_end(l, c + 1, Class::Space);
    let e = run_end(l, d, Class::Hexish);
    if b > a && c < l.len() && l[c] == '=' && e > d {
        Some((l.subrange(a, b), l.subrange(d, e)))
    } else {
        None
    }
}

/// How key `k` with value `v` is written as a line (without its line feed).
pub open spec fn render_line(s: Syntax, k: Seq<char>, v: Seq<char>) -> Seq<char> {
    match s {
        Syntax::Bracketed => theme_word() + k + seq![']', '=', '"'] + v + seq!['"'],
        Syntax::Macro => seq!['$'] + k + seq![' ', '=', ' ', 'r', 'g', 'b', 'a', '('] + v + seq![')'],
        Syntax::DefineColor => define_word() + seq![' '] + k + seq![' '] + v + seq![';'],
        Syntax::KeyValue => k + seq!['='] + v,
        Syntax::TomlString => k + seq![' ', '=', ' ', '"'] + v + seq!['"'],
    }
}

/// The key and the raw value that a line states, if it states one.
pub open spec fn entry(s: Syntax, l: Seq<char>) -> Option<(Seq<char>, Seq<char>)> {
    match s {
        Syntax::Bracketed => bracketed_entry(l),
        Syntax::Macro => macro_entry(l),
        Syntax::DefineColor => define_entry(l),
        Syntax::KeyValue => key_value_entry(l),
        Syntax::TomlString => None,
    }
}

pub fn run_end_exec(l: &Vec<char>, i: usize, k: Class) -> (r: usize)
    requires
        i <= l@.len(),
    ensures
        r == run_end(l@, i as int, k),
        i <= r <= l@.len(),
{
    let mut j = i;
    while j < l.len() && in_class_exec(l[j], k)
        invariant
            i <= j <= l@.len(),
            run_end(l@, i as int, k) == run_end(l@, j as int, k),
        decreases l@.len() - j,
    {
        j = j + 1;
    }
    j
}

pub fn trim_end_exec(l: &Vec<char>, lo: usize, hi: usize, c: Class) -> (r: usize)
    requires
        lo <= hi <= l@.len(),
    ensures
        r == trim_end(l@, lo as int, hi as int, c),
        lo <= r <= hi,
{
    let mut j = hi;
    while j > lo && in_class_exec(l[j - 1], c)
        invariant
            lo <= j <= hi <= l@.len(),
            trim_end(l@, lo as int, hi as int, c) == trim_end(l@, lo as int, j as int, c),
        decreases j,
    {
        j = j - 1;
    }
    j
}

pub fn word_at_exec(l: &Vec<char>, i: usize, w: &Vec<char>) -> (r: bool)
    ensures
        r == word_at(l@, i as int, w@),
{
    if i > l.len() || w.len() > l.len() - i {
        return false;
    }
    let n = l.len();
    let mut j: usize = 0;
    while j < w.len()
        invariant
            n == l@.len(),
            i <= l@.len(),
            w@.len() <= l@.len() - i,
            j <= w@.len(),
            forall|m: int| 0 <= m < j ==> l@[i + m] == w@[m],
        decreases w@.len() - j,
    {
        assert(i + j < l@.len());
        if l[i + j] != w[j] {
            assert(l@.subrange(i as int, i + w@.len())[j as int] != w@[j as int]);
            return false;
        }
        j = j + 1;
    }
    assert(l@.subrange(i as int, i + w@.len()) =~= w@);
    true
}

/// The characters `l[lo..hi]`.
pub fn slice_of(l: &Vec<char>, lo: usize, hi: usize) -> (r: Vec<char>)
    requires
        lo <= hi <= l@.len(),
    ensures
        r@ == l@.subrange(lo as int, hi as int),
{
    let mut out: Vec<char> = Vec::new();
    let mut j = lo;
    while j < hi
        invariant
            lo <= j <= hi <= l@.len(),
            out@ == l@.subrange(lo as int, j as int),
        decreases hi - j,
    {
        out.push(l[j]);
        assert(l@.subrange(lo as int, j + 1) == l@.subrange(lo as int, j as int).push(l@[j as int]));
        j = j + 1;
    }
    out
}

fn rgba_at_exec(l: &Vec<char>, i: usize) -> (r: bool)
    ensures
        r == rgba_at(l@, i as int),
{
    if i > l.len() || l.len() - i < 5 {
        return false;
    }
    (l[i] == 'r' || l[i] == 'R') && (l[i + 1] == 'g' || l[i + 1] == 'G') && (l[i + 2] == 'b'
        || l[i + 2] == 'B') && (l[i + 3] == 'a' || l[i + 3] == 'A') && l[i + 4] == '('
}

fn bracketed_entry_exec(l: &Vec<char>) -> (r: Option<(Vec<char>, Vec<char>)>)
    ensures
        match r {
            Some(p) => bracketed_entry(l@) == Some((p.0@, p.1@)),
            None => bracketed_entry(l@) is None,
        },
{
    let n = l.len();
    let a = run_end_exec(l, 0, Class::Space);
    let w = vec!['t', 'h', 'e', 'm', 'e', '['];
    if !word_at_exec(l, a, &w) {
        return None;
    }
    let b = a + 6;
    let c = run_end_exec(l, b, Class::Ident);
    if !(c > b && c < n && l[c] == ']') {
        return None;
    }
    let d = run_end_exec(l, c + 1, Class::Space);
    if !(d < n && l[d] == '=') {
        return None;
    }
    let e = run_end_exec(l, d + 1, Class::Space);
    if !(e < n && l[e] == '"') {
        return None;
    }
    let f = run_end_exec(l, e + 1, Class::NotQuote);
    if !(f < n && run_end_exec(l, f + 1, Class::Space) == n) {
        return None;
    }
    Some((slice_of(l, b, c), slice_of(l, e + 1, f)))
}

fn macro_entry_exec(l: &Vec<char>) -> (r: Option<(Vec<char>, Vec<char>)>)
    ensures
        match r {
            Some(p) => macro_entry(l@) == Some((p.0@, p.1@)),
            None => macro_entry(l@) is None,
        },
{
    let n = l.len();
    let a = run_end_exec(l, 0, Class::Space);
    if !(a < n && l[a] == '$') {
        return None;
    }
    let b = a + 1;
    let c = run_end_exec(l, b, Class::Ident);
    if !(c > b) {
        return None;
    }
    let d = run_end_exec(l, c, Class::Space);
    if !(d < n && l[d] == '=') {
        return None;
    }
    let e = run_end_exec(l, d + 1, Class::Space);
    if !rgba_at_exec(l, e) {
        return None;
    }
    let f = run_end_exec(l, e + 5, Class::Space);
    let g = run_end_exec(l, f, Class::NotParen);
    if !(g < n && run_end_exec(l, g + 1, Class::Space) == n) {
        return None;
    }
    let h = trim_end_exec(l, f, g, Class::Space);
    if !(h > f) {
        return None;
    }
    Some((slice_of(l, b, c), slice_of(l, f, h)))
}

fn define_entry_exec(l: &Vec<char>) -> (r: Option<(Vec<char>, Vec<char>)>)
    ensures
        match r {
            Some(p) => define_entry(l@) == Some((p.0@, p.1@)),
            None => define_entry(l@) is None,
        },
{
    let n = l.len();
    let a = run_end_exec(l, 0, Class::Space);
    let w = vec!['@', 'd', 'e', 'f', 'i', 'n', 'e', '-', 'c', 'o', 'l', 'o', 'r'];
    if !word_at_exec(l, a, &w) {
        return None;
    }
    let b = a + 13;
    let c = run_end_exec(l, b, Class::Blank);
    if !(c > b) {
        return None;
    }
    let d = run_end_exec(l, c, Class::Name);
    if !(d > c) {
        return None;
    }
    let e = run_end_exec(l, d, Class::Blank);
    if !(e > d) {
        return None;
    }
    let f = run_end_exec(l, e, Class::NotSemi);
    if !(f < n) {
        return None;
    }
    let h = trim_end_exec(l, e, f, Class::Blank);
    if !(h > e) {
        return None;
    }
    Some((slice_of(l, c, d), slice_of(l, e, h)))
}

fn key_value_entry_exec(l: &Vec<char>) -> (r: Option<(Vec<char>, Vec<char>)>)
    ensures
        match r {
            Some(p) => key_value_entry(l@) == Some((p.0@, p.1@)),
            None => key_value_entry(l@) is None,
        },
{
    let n = l.len();
    let a = run_end_exec(l, 0, Class::Space);
    let b = run_end_exec(l, a, Class::Name);
    if !(b > a) {
        return None;
    }
    let c = run_end_exec(l, b, Class::Space);
    if !(c < n && l[c] == '=') {
        return None;
    }
    let d = run_end_exec(l, c + 1, Class::Space);
    let e = run_end_exec(l, d, Class::Hexish);
    if !(e > d) {
        return None;
    }
    Some((slice_of(l, a, b), slice_of(l, d, e)))
}

/// The key and the raw value that the line `l` states in syntax `s`.
pub fn entry_exec(s: Syntax, l: &Vec<char>) -> (r: Option<(Vec<char>, Vec<char>)>)
    ensures
        match r {
            Some(p) => entry(s, l@) == Some((p.0@, p.1@)),
            None => entry(s, l@) is None,
        },
{
    match s {
        Syntax::Bracketed => bracketed_entry_exec(l),
        Syntax::Macro => macro_entry_exec(l),
        Syntax::DefineColor => define_entry_exec(l),
        Syntax::KeyValue => key_value_entry_exec(l),
        Syntax::TomlString => None,
    }
}

fn open_decl_exec(cur: &Vec<char>) -> (r: bool)
    ensures
        r == open_decl(cur@),
{
    let w = vec!['@', 'd', 'e', 'f', 'i', 'n', 'e', '-', 'c', 'o', 'l', 'o', 'r'];
    let a = run_end_exec(cur, 0, Class::Space);
    word_at_exec(cur, a, &w) && run_end_exec(cur, 0, Class::NotSemi) == cur.len()
}

/// The units of `cs` that syntax `s` reads one by one.
pub fn split_units(s: Syntax, cs: &Vec<char>) -> (r: Vec<Vec<char>>)
    ensures
        r@.len() == units_of(s, cs@).len(),
        forall|i: int| 0 <= i < r@.len() ==> #[trigger] r@[i]@ == units_of(s, cs@)[i],
{
    let mut ls: Vec<Vec<char>> = Vec::new();
    let mut cur: Vec<char> = Vec::new();
    let mut i: usize = 0;
    while i < cs.len()
        invariant
            i <= cs@.len(),
            ls@.len() == unit_state(s, cs@, i as int).0.len(),
            forall|j: int|
                0 <= j < ls@.len() ==> #[trigger] ls@[j]@ == unit_state(s, cs@, i as int).0[j],
            cur@ == unit_state(s, cs@, i as int).1,
        decreases cs@.len() - i,
    {
        if cs[i] == '\n' && !(s == Syntax::DefineColor && open_decl_exec(&cur)) {
            ls.push(cur);
            cur = Vec::new();
        } else {
            cur.push(cs[i]);
        }
        i = i + 1;
    }
    if cur.len() > 0 {
        ls.push(cur);
    }
    ls
}

} // verus!
