//! What holds of the line-based codecs across calls: parsing rendered text
//! gives back the values written, a second cycle changes nothing, lines that
//! state no field change nothing, the line grammars accept extra white space,
//! and a tree without the codec's part is rendered with the defaults.

use vstd::prelude::*;
use crate::grammar::{
    define_word, entry, in_class, open_decl, render_line, run_end, theme_word, trim_end, unit_state,
    units_of, word_at, Class, Syntax,
};
use crate::layout::{
    body_lines, colors_entries, colors_key, field_lines, field_text, heading_lines, join, key_of,
    first_value, last_value, parsed, parsed_values, present, rendered, rendered_lines, section_lines,
    section_node, tree_of, value_in, FieldModel, LayoutModel, SectionModel,
};
use crate::css::declared;
use crate::value::{find_from, lookup, Node};

verus! {

// ------------------------------------------------------------------- lines

pub open spec fn no_newline(x: Seq<char>) -> bool {
    forall|i: int| 0 <= i < x.len() ==> x[i] != '\n'
}

/// `x` is read as one unit in syntax `s`: a line, or for declarations a
/// declaration whose line feeds all come before its `;`.
pub open spec fn single(s: Syntax, x: Seq<char>) -> bool {
    if s == Syntax::DefineColor {
        (forall|m: int| 0 <= m < x.len() && #[trigger] x[m] == '\n' ==> open_decl(x.take(m)))
            && !open_decl(x)
    } else {
        no_newline(x)
    }
}

proof fn lemma_unit_prefix(s: Syntax, t1: Seq<char>, t2: Seq<char>, n: int)
    requires
        0 <= n <= t1.len(),
        n <= t2.len(),
        forall|i: int| 0 <= i < n ==> t1[i] == t2[i],
    ensures
        unit_state(s, t1, n) == unit_state(s, t2, n),
    decreases n,
{
    if n > 0 {
        lemma_unit_prefix(s, t1, t2, n - 1);
    }
}

proof fn lemma_unit_run(s: Syntax, t: Seq<char>, n: int, j: int)
    requires
        0 <= n,
        0 <= j,
        n + j <= t.len(),
        unit_state(s, t, n).1 == Seq::<char>::empty(),
        forall|k: int|
            0 <= k < j && #[trigger] t[n + k] == '\n' ==> s == Syntax::DefineColor && open_decl(
                t.subrange(n, n + k),
            ),
    ensures
        unit_state(s, t, n + j) == (unit_state(s, t, n).0, t.subrange(n, n + j)),
    decreases j,
{
    if j > 0 {
        lemma_unit_run(s, t, n, j - 1);
        assert(t.subrange(n, n + j) =~= t.subrange(n, n + j - 1).push(t[n + j - 1]));
        if t[n + j - 1] == '\n' {
            assert(t[n + (j - 1)] == '\n');
        }
    } else {
        assert(t.subrange(n, n) =~= Seq::<char>::empty());
    }
}

proof fn lemma_units_join(s: Syntax, ls: Seq<Seq<char>>)
    requires
        forall|i: int| 0 <= i < ls.len() ==> single(s, #[trigger] ls[i]),
    ensures
        unit_state(s, join(ls), join(ls).len() as int) == (ls, Seq::<char>::empty()),
    decreases ls.len(),
{
    if ls.len() == 0 {
        assert(ls =~= Seq::<Seq<char>>::empty());
    } else {
        let a = ls.drop_last();
        let x = ls.last();
        assert(forall|i: int| 0 <= i < a.len() ==> a[i] == ls[i]);
        lemma_units_join(s, a);
        let t = join(ls);
        let n = join(a).len() as int;
        assert(t == join(a) + x + seq!['\n']);
        assert forall|i: int| 0 <= i < n implies t[i] == join(a)[i] by {}
        lemma_unit_prefix(s, t, join(a), n);
        assert(single(s, ls[ls.len() - 1]));
        assert forall|k: int| 0 <= k < x.len() && #[trigger] t[n + k] == '\n' implies s
            == Syntax::DefineColor && open_decl(t.subrange(n, n + k)) by {
            assert(t[n + k] == x[k]);
            assert(t.subrange(n, n + k) =~= x.take(k));
        }
        lemma_unit_run(s, t, n, x.len() as int);
        assert(t.subrange(n, n + x.len()) =~= x);
        assert(t[n + x.len()] == '\n');
        assert(ls =~= a.push(x));
    }
}

/// The units of text made by joining units `ls` are `ls`.
pub proof fn lemma_units_of_join(s: Syntax, ls: Seq<Seq<char>>)
    requires
        forall|i: int| 0 <= i < ls.len() ==> single(s, #[trigger] ls[i]),
    ensures
        units_of(s, join(ls)) == ls,
{
    lemma_units_join(s, ls);
}

// ---------------------------------------------------------------- grammars

pub open spec fn all_in(x: Seq<char>, c: Class) -> bool {
    forall|i: int| 0 <= i < x.len() ==> in_class(#[trigger] x[i], c)
}

pub open spec fn spaces(x: Seq<char>) -> bool {
    all_in(x, Class::Space)
}

/// White space that may hold line feeds.
pub open spec fn blanks(x: Seq<char>) -> bool {
    all_in(x, Class::Blank)
}

proof fn lemma_run(l: Seq<char>, i: int, j: int, c: Class)
    requires
        0 <= i <= j <= l.len(),
        forall|m: int| i <= m < j ==> in_class(#[trigger] l[m], c),
        j == l.len() || !in_class(l[j], c),
    ensures
        run_end(l, i, c) == j,
    decreases j - i,
{
    if i < j {
        lemma_run(l, i + 1, j, c);
    }
}

proof fn lemma_trim(l: Seq<char>, lo: int, hi: int, h: int, c: Class)
    requires
        0 <= lo <= h <= hi <= l.len(),
        forall|m: int| h <= m < hi ==> in_class(#[trigger] l[m], c),
        h == lo || !in_class(l[h - 1], c),
    ensures
        trim_end(l, lo, hi, c) == h,
    decreases hi - h,
{
    if h < hi {
        lemma_trim(l, lo, hi - 1, h, c);
    }
}

/// `theme[key]="value"` with white space `p0`..`p3` at both ends and around
/// `=`.
pub open spec fn bracketed_line(
    p0: Seq<char>,
    k: Seq<char>,
    p1: Seq<char>,
    p2: Seq<char>,
    v: Seq<char>,
    p3: Seq<char>,
) -> Seq<char> {
    p0 + theme_word() + k + seq![']'] + p1 + seq!['='] + p2 + seq!['"'] + v + seq!['"'] + p3
}

/// A bracketed line states its key and value, however much white space
/// stands around the tokens.
#[verifier::spinoff_prover]
#[verifier::rlimit(60)]
pub proof fn lemma_bracketed_entry(
    p0: Seq<char>,
    k: Seq<char>,
    p1: Seq<char>,
    p2: Seq<char>,
    v: Seq<char>,
    p3: Seq<char>,
)
    requires
        spaces(p0),
        spaces(p1),
        spaces(p2),
        spaces(p3),
        k.len() > 0,
        all_in(k, Class::Ident),
        all_in(v, Class::NotQuote),
    ensures
        entry(Syntax::Bracketed, bracketed_line(p0, k, p1, p2, v, p3)) == Some((k, v)),
{
    let l = bracketed_line(p0, k, p1, p2, v, p3);
    let a = p0.len() as int;
    let b = a + 6;
    let c = b + k.len();
    let d = c + 1 + p1.len();
    let e = d + 1 + p2.len();
    let f = e + 1 + v.len();
    let n = l.len() as int;
    assert(n == f + 1 + p3.len());
    assert forall|m: int| 0 <= m < a implies in_class(#[trigger] l[m], Class::Space) by {
        assert(l[m] == p0[m]);
    }
    assert(l[a] == 't');
    lemma_run(l, 0, a, Class::Space);
    assert(l.subrange(a, b) =~= theme_word());
    assert forall|m: int| b <= m < c implies in_class(#[trigger] l[m], Class::Ident) by {
        assert(l[m] == k[m - b]);
    }
    assert(l[c] == ']');
    lemma_run(l, b, c, Class::Ident);
    assert forall|m: int| c + 1 <= m < d implies in_class(#[trigger] l[m], Class::Space) by {
        assert(l[m] == p1[m - c - 1]);
    }
    assert(l[d] == '=');
    lemma_run(l, c + 1, d, Class::Space);
    assert forall|m: int| d + 1 <= m < e implies in_class(#[trigger] l[m], Class::Space) by {
        assert(l[m] == p2[m - d - 1]);
    }
    assert(l[e] == '"');
    lemma_run(l, d + 1, e, Class::Space);
    assert forall|m: int| e + 1 <= m < f implies in_class(#[trigger] l[m], Class::NotQuote) by {
        assert(l[m] == v[m - e - 1]);
    }
    assert(l[f] == '"');
    lemma_run(l, e + 1, f, Class::NotQuote);
    assert forall|m: int| f + 1 <= m < n implies in_class(#[trigger] l[m], Class::Space) by {
        assert(l[m] == p3[m - f - 1]);
    }
    lemma_run(l, f + 1, n, Class::Space);
    assert(l.subrange(b, c) =~= k);
    assert(l.subrange(e + 1, f) =~= v);
}

/// `$key = rgba(value)` with white space around every token.
pub open spec fn macro_line(
    p0: Seq<char>,
    k: Seq<char>,
    p1: Seq<char>,
    p2: Seq<char>,
    p3: Seq<char>,
    v: Seq<char>,
    p4: Seq<char>,
    p5: Seq<char>,
) -> Seq<char> {
    p0 + seq!['$'] + k + p1 + seq!['='] + p2 + seq!['r', 'g', 'b', 'a', '('] + p3 + v + p4 + seq![
        ')',
    ] + p5
}

/// A value that a macro line keeps whole: no `)`, no line feed, and no white
/// space at either end.
pub open spec fn macro_value(v: Seq<char>) -> bool {
    v.len() > 0 && all_in(v, Class::NotParen) && no_newline(v) && !in_class(v[0], Class::Space)
        && !in_class(v[v.len() - 1], Class::Space)
}

/// A macro line states its key and value, however much white space stands
/// around the tokens.
#[verifier::spinoff_prover]
#[verifier::rlimit(60)]
pub proof fn lemma_macro_entry(
    p0: Seq<char>,
    k: Seq<char>,
    p1: Seq<char>,
    p2: Seq<char>,
    p3: Seq<char>,
    v: Seq<char>,
    p4: Seq<char>,
    p5: Seq<char>,
)
    requires
        spaces(p0),
        spaces(p1),
        spaces(p2),
        spaces(p3),
        spaces(p4),
        spaces(p5),
        k.len() > 0,
        all_in(k, Class::Ident),
        macro_value(v),
    ensures
        entry(Syntax::Macro, macro_line(p0, k, p1, p2, p3, v, p4, p5)) == Some((k, v)),
{
    let l = macro_line(p0, k, p1, p2, p3, v, p4, p5);
    let a = p0.len() as int;
    let b = a + 1;
    let c = b + k.len();
    let d = c + p1.len();
    let e = d + 1 + p2.len();
    let f = e + 5 + p3.len();
    let h = f + v.len();
    let g = h + p4.len();
    let n = l.len() as int;
    assert(n == g + 1 + p5.len());
    assert forall|m: int| 0 <= m < a implies in_class(#[trigger] l[m], Class::Space) by {
        assert(l[m] == p0[m]);
    }
    assert(l[a] == '$');
    lemma_run(l, 0, a, Class::Space);
    assert forall|m: int| b <= m < c implies in_class(#[trigger] l[m], Class::Ident) by {
        assert(l[m] == k[m - b]);
    }
    if p1.len() > 0 {
        assert(l[c] == p1[0]);
    } else {
        assert(l[c] == '=');
    }
    lemma_run(l, b, c, Class::Ident);
    assert forall|m: int| c <= m < d implies in_class(#[trigger] l[m], Class::Space) by {
        assert(l[m] == p1[m - c]);
    }
    assert(l[d] == '=');
    lemma_run(l, c, d, Class::Space);
    assert forall|m: int| d + 1 <= m < e implies in_class(#[trigger] l[m], Class::Space) by {
        assert(l[m] == p2[m - d - 1]);
    }
    assert(l[e] == 'r');
    lemma_run(l, d + 1, e, Class::Space);
    assert(l[e + 1] == 'g' && l[e + 2] == 'b' && l[e + 3] == 'a' && l[e + 4] == '(');
    assert forall|m: int| e + 5 <= m < f implies in_class(#[trigger] l[m], Class::Space) by {
        assert(l[m] == p3[m - e - 5]);
    }
    assert(l[f] == v[0]);
    lemma_run(l, e + 5, f, Class::Space);
    assert forall|m: int| f <= m < g implies in_class(#[trigger] l[m], Class::NotParen) by {
        if m < h {
            assert(l[m] == v[m - f]);
        } else {
            assert(l[m] == p4[m - h]);
        }
    }
    assert(l[g] == ')');
    lemma_run(l, f, g, Class::NotParen);
    assert forall|m: int| g + 1 <= m < n implies in_class(#[trigger] l[m], Class::Space) by {
        assert(l[m] == p5[m - g - 1]);
    }
    lemma_run(l, g + 1, n, Class::Space);
    assert forall|m: int| h <= m < g implies in_class(#[trigger] l[m], Class::Space) by {
        assert(l[m] == p4[m - h]);
    }
    assert(l[h - 1] == v[v.len() - 1]);
    lemma_trim(l, f, g, h, Class::Space);
    assert(l.subrange(b, c) =~= k);
    assert(l.subrange(f, h) =~= v);
}

/// `@define-color name value;` with white space around every token, line
/// feeds allowed after `@define-color`; `q1` and `q2` are not empty, and
/// `rest` after `;` is not read.
pub open spec fn define_line(
    p0: Seq<char>,
    q1: Seq<char>,
    k: Seq<char>,
    q2: Seq<char>,
    v: Seq<char>,
    p3: Seq<char>,
    rest: Seq<char>,
) -> Seq<char> {
    p0 + define_word() + q1 + k + q2 + v + p3 + seq![';'] + rest
}

/// A value that a declaration keeps whole: no `;`, and no white space (line
/// feeds included) at either end.
pub open spec fn define_value(v: Seq<char>) -> bool {
    v.len() > 0 && all_in(v, Class::NotSemi) && !in_class(v[0], Class::Blank) && !in_class(
        v[v.len() - 1],
        Class::Blank,
    )
}

/// A declaration states its name and value, however much white space stands
/// around the tokens.
#[verifier::spinoff_prover]
#[verifier::rlimit(60)]
pub proof fn lemma_define_entry(
    p0: Seq<char>,
    q1: Seq<char>,
    k: Seq<char>,
    q2: Seq<char>,
    v: Seq<char>,
    p3: Seq<char>,
    rest: Seq<char>,
)
    requires
        spaces(p0),
        blanks(q1),
        q1.len() > 0,
        blanks(q2),
        q2.len() > 0,
        blanks(p3),
        k.len() > 0,
        all_in(k, Class::Name),
        define_value(v),
    ensures
        entry(Syntax::DefineColor, define_line(p0, q1, k, q2, v, p3, rest)) == Some((k, v)),
{
    let l = define_line(p0, q1, k, q2, v, p3, rest);
    let a = p0.len() as int;
    let b = a + 13;
    let c = b + q1.len();
    let d = c + k.len();
    let e = d + q2.len();
    let h = e + v.len();
    let f = h + p3.len();
    assert(l.len() == f + 1 + rest.len());
    assert forall|m: int| 0 <= m < a implies in_class(#[trigger] l[m], Class::Space) by {
        assert(l[m] == p0[m]);
    }
    assert(l[a] == '@');
    lemma_run(l, 0, a, Class::Space);
    assert(l.subrange(a, b) =~= define_word());
    assert forall|m: int| b <= m < c implies in_class(#[trigger] l[m], Class::Blank) by {
        assert(l[m] == q1[m - b]);
    }
    assert(l[c] == k[0]);
    lemma_run(l, b, c, Class::Blank);
    assert forall|m: int| c <= m < d implies in_class(#[trigger] l[m], Class::Name) by {
        assert(l[m] == k[m - c]);
    }
    assert(l[d] == q2[0]);
    lemma_run(l, c, d, Class::Name);
    assert forall|m: int| d <= m < e implies in_class(#[trigger] l[m], Class::Blank) by {
        assert(l[m] == q2[m - d]);
    }
    assert(l[e] == v[0]);
    lemma_run(l, d, e, Class::Blank);
    assert forall|m: int| e <= m < f implies in_class(#[trigger] l[m], Class::NotSemi) by {
        if m < h {
            assert(l[m] == v[m - e]);
        } else {
            assert(l[m] == p3[m - h]);
        }
    }
    assert(l[f] == ';');
    lemma_run(l, e, f, Class::NotSemi);
    assert forall|m: int| h <= m < f implies in_class(#[trigger] l[m], Class::Blank) by {
        assert(l[m] == p3[m - h]);
    }
    assert(l[h - 1] == v[v.len() - 1]);
    lemma_trim(l, e, f, h, Class::Blank);
    assert(l.subrange(c, d) =~= k);
    assert(l.subrange(e, h) =~= v);
}

/// `key=value` with white space at both ends and around `=`.
pub open spec fn key_value_line(
    p0: Seq<char>,
    k: Seq<char>,
    p1: Seq<char>,
    p2: Seq<char>,
    v: Seq<char>,
    p3: Seq<char>,
) -> Seq<char> {
    p0 + k + p1 + seq!['='] + p2 + v + p3
}

/// A `key=value` line states its key and value, however much white space
/// stands around the tokens.
#[verifier::spinoff_prover]
#[verifier::rlimit(60)]
pub proof fn lemma_key_value_entry(
    p0: Seq<char>,
    k: Seq<char>,
    p1: Seq<char>,
    p2: Seq<char>,
    v: Seq<char>,
    p3: Seq<char>,
)
    requires
        spaces(p0),
        spaces(p1),
        spaces(p2),
        spaces(p3),
        k.len() > 0,
        all_in(k, Class::Name),
        v.len() > 0,
        all_in(v, Class::Hexish),
    ensures
        entry(Syntax::KeyValue, key_value_line(p0, k, p1, p2, v, p3)) == Some((k, v)),
{
    let l = key_value_line(p0, k, p1, p2, v, p3);
    let a = p0.len() as int;
    let b = a + k.len();
    let c = b + p1.len();
    let d = c + 1 + p2.len();
    let e = d + v.len();
    assert(l.len() == e + p3.len());
    assert forall|m: int| 0 <= m < a implies in_class(#[trigger] l[m], Class::Space) by {
        assert(l[m] == p0[m]);
    }
    assert(l[a] == k[0]);
    lemma_run(l, 0, a, Class::Space);
    assert forall|m: int| a <= m < b implies in_class(#[trigger] l[m], Class::Name) by {
        assert(l[m] == k[m - a]);
    }
    if p1.len() > 0 {
        assert(l[b] == p1[0]);
    } else {
        assert(l[b] == '=');
    }
    lemma_run(l, a, b, Class::Name);
    assert forall|m: int| b <= m < c implies in_class(#[trigger] l[m], Class::Space) by {
        assert(l[m] == p1[m - b]);
    }
    assert(l[c] == '=');
    lemma_run(l, b, c, Class::Space);
    assert forall|m: int| c + 1 <= m < d implies in_class(#[trigger] l[m], Class::Space) by {
        assert(l[m] == p2[m - c - 1]);
    }
    assert(l[d] == v[0]);
    lemma_run(l, c + 1, d, Class::Space);
    assert forall|m: int| d <= m < e implies in_class(#[trigger] l[m], Class::Hexish) by {
        assert(l[m] == v[m - d]);
    }
    if p3.len() > 0 {
        assert(l[e] == p3[0]);
    }
    lemma_run(l, d, e, Class::Hexish);
    assert(l.subrange(a, b) =~= k);
    assert(l.subrange(d, e) =~= v);
}

// ----------------------------------------------------------- a table's lines

pub open spec fn valid_key(s: Syntax, k: Seq<char>) -> bool {
    k.len() > 0 && match s {
        Syntax::Bracketed => all_in(k, Class::Ident),
        Syntax::Macro => all_in(k, Class::Ident),
        Syntax::DefineColor => all_in(k, Class::Name),
        Syntax::KeyValue => all_in(k, Class::Name),
        Syntax::TomlString => false,
    }
}

/// A value that syntax `s` writes and reads back unchanged.
pub open spec fn valid_value(s: Syntax, v: Seq<char>) -> bool {
    match s {
        Syntax::Bracketed => all_in(v, Class::NotQuote) && no_newline(v),
        Syntax::Macro => macro_value(v),
        Syntax::DefineColor => define_value(v),
        Syntax::KeyValue => v.len() > 0 && all_in(v, Class::Hexish),
        Syntax::TomlString => false,
    }
}

proof fn lemma_no_newline_add(a: Seq<char>, b: Seq<char>)
    requires
        no_newline(a),
        no_newline(b),
    ensures
        no_newline(a + b),
{
    assert forall|i: int| 0 <= i < (a + b).len() implies (a + b)[i] != '\n' by {
        if i >= a.len() {
            assert((a + b)[i] == b[i - a.len()]);
        }
    }
}

proof fn lemma_class_no_newline(x: Seq<char>, c: Class)
    requires
        all_in(x, c),
        c == Class::Ident || c == Class::Name || c == Class::Hexish || c == Class::Space,
    ensures
        no_newline(x),
{
    assert forall|i: int| 0 <= i < x.len() implies x[i] != '\n' by {
        assert(in_class(x[i], c));
    }
}

#[verifier::spinoff_prover]
#[verifier::rlimit(80)]
proof fn lemma_render_bracketed(k: Seq<char>, v: Seq<char>)
    requires
        valid_key(Syntax::Bracketed, k),
        valid_value(Syntax::Bracketed, v),
    ensures
        entry(Syntax::Bracketed, render_line(Syntax::Bracketed, k, v)) == Some((k, v)),
        single(Syntax::Bracketed, render_line(Syntax::Bracketed, k, v)),
{
    let e = Seq::<char>::empty();
    assert(spaces(e));
    lemma_bracketed_entry(e, k, e, e, v, e);
    let w = theme_word();
    assert(e + w =~= w);
    assert(w + k + seq![']'] + e =~= w + k + seq![']']);
    assert(w + k + seq![']'] + seq!['='] + e =~= w + k + seq![']'] + seq!['=']);
    assert(w + k + seq![']'] + seq!['='] + seq!['"'] =~= w + k + seq![']', '=', '"']);
    assert(w + k + seq![']', '=', '"'] + v + seq!['"'] + e =~= w + k + seq![']', '=', '"'] + v
        + seq!['"']);
    lemma_class_no_newline(k, Class::Ident);
    lemma_no_newline_add(w, k);
    lemma_no_newline_add(w + k, seq![']', '=', '"']);
    lemma_no_newline_add(w + k + seq![']', '=', '"'], v);
    lemma_no_newline_add(w + k + seq![']', '=', '"'] + v, seq!['"']);
}

#[verifier::spinoff_prover]
#[verifier::rlimit(80)]
proof fn lemma_render_macro(k: Seq<char>, v: Seq<char>)
    requires
        valid_key(Syntax::Macro, k),
        valid_value(Syntax::Macro, v),
    ensures
        entry(Syntax::Macro, render_line(Syntax::Macro, k, v)) == Some((k, v)),
        single(Syntax::Macro, render_line(Syntax::Macro, k, v)),
{
    let e = Seq::<char>::empty();
    let sp = seq![' '];
    assert(spaces(e));
    assert(spaces(sp));
    lemma_macro_entry(e, k, sp, sp, e, v, e, e);
    assert(macro_line(e, k, sp, sp, e, v, e, e) =~= render_line(Syntax::Macro, k, v));
    lemma_class_no_newline(k, Class::Ident);
    let w = seq![' ', '=', ' ', 'r', 'g', 'b', 'a', '('];
    lemma_no_newline_add(seq!['$'], k);
    lemma_no_newline_add(seq!['$'] + k, w);
    lemma_no_newline_add(seq!['$'] + k + w, v);
    lemma_no_newline_add(seq!['$'] + k + w + v, seq![')']);
}

#[verifier::spinoff_prover]
#[verifier::rlimit(80)]
proof fn lemma_render_define(k: Seq<char>, v: Seq<char>)
    requires
        valid_key(Syntax::DefineColor, k),
        valid_value(Syntax::DefineColor, v),
    ensures
        entry(Syntax::DefineColor, render_line(Syntax::DefineColor, k, v)) == Some((k, v)),
        single(Syntax::DefineColor, render_line(Syntax::DefineColor, k, v)),
{
    let e = Seq::<char>::empty();
    let sp = seq![' '];
    assert(spaces(e));
    assert(blanks(e));
    assert(blanks(sp));
    lemma_define_entry(e, sp, k, sp, v, e, e);
    let w = define_word();
    assert(e + w =~= w);
    assert(w + sp + k + sp + v + e =~= w + sp + k + sp + v);
    assert(w + sp + k + sp + v + seq![';'] + e =~= w + sp + k + sp + v + seq![';']);
    assert(define_line(e, sp, k, sp, v, e, e) == render_line(Syntax::DefineColor, k, v));
    lemma_define_single(k, v);
}

/// A declaration that starts, after spaces, at `a` with `@define-color`, holds
/// no line feed before that word, and ends with its only `;` is one unit.
proof fn lemma_decl_single(x: Seq<char>, a: int)
    requires
        0 <= a,
        x.len() >= a + 14,
        forall|m: int| 0 <= m < a ==> in_class(#[trigger] x[m], Class::Space),
        x.subrange(a, a + 13) == define_word(),
        forall|m: int| 0 <= m < x.len() - 1 ==> in_class(#[trigger] x[m], Class::NotSemi),
        x[x.len() - 1] == ';',
    ensures
        single(Syntax::DefineColor, x),
{
    lemma_run(x, 0, x.len() - 1, Class::NotSemi);
    assert forall|m: int| 0 <= m < x.len() && #[trigger] x[m] == '\n' implies open_decl(x.take(m)) by {
        if m < a {
            assert(in_class(x[m], Class::Space));
        } else if m < a + 13 {
            assert(x[m] == x.subrange(a, a + 13)[m - a]);
        }
        let y = x.take(m);
        assert forall|i: int| 0 <= i < a implies in_class(#[trigger] y[i], Class::Space) by {
            assert(y[i] == x[i]);
        }
        assert(y[a] == x[a]);
        assert(x[a] == x.subrange(a, a + 13)[0]);
        lemma_run(y, 0, a, Class::Space);
        assert(y.subrange(a, a + 13) =~= x.subrange(a, a + 13));
        assert forall|i: int| 0 <= i < m implies in_class(#[trigger] y[i], Class::NotSemi) by {
            assert(y[i] == x[i]);
        }
        lemma_run(y, 0, m, Class::NotSemi);
    }
}

#[verifier::spinoff_prover]
proof fn lemma_define_single(k: Seq<char>, v: Seq<char>)
    requires
        valid_key(Syntax::DefineColor, k),
        valid_value(Syntax::DefineColor, v),
    ensures
        single(Syntax::DefineColor, render_line(Syntax::DefineColor, k, v)),
{
    let x = render_line(Syntax::DefineColor, k, v);
    let o = 15 + k.len();
    assert(x.len() == o + v.len() + 1);
    assert forall|m: int| 0 <= m < x.len() - 1 implies in_class(#[trigger] x[m], Class::NotSemi) by {
        if m >= o {
            assert(x[m] == v[m - o]);
        } else if m >= 14 && m < 14 + k.len() {
            assert(x[m] == k[m - 14]);
        }
    }
    assert(x[x.len() - 1] == ';');
    lemma_run(x, 0, x.len() - 1, Class::NotSemi);
    assert(run_end(x, 0, Class::Space) == 0);
    assert forall|m: int| 0 <= m < x.len() && #[trigger] x[m] == '\n' implies open_decl(x.take(m)) by {
        if m < o {
            if m >= 14 && m < 14 + k.len() {
                assert(x[m] == k[m - 14]);
            }
        }
        let y = x.take(m);
        assert(y[0] == '@');
        assert(run_end(y, 0, Class::Space) == 0);
        assert(y.subrange(0, 13) =~= define_word());
        assert forall|i: int| 0 <= i < m implies in_class(#[trigger] y[i], Class::NotSemi) by {
            assert(y[i] == x[i]);
        }
        lemma_run(y, 0, m, Class::NotSemi);
    }
}

#[verifier::spinoff_prover]
#[verifier::rlimit(80)]
proof fn lemma_render_key_value(k: Seq<char>, v: Seq<char>)
    requires
        valid_key(Syntax::KeyValue, k),
        valid_value(Syntax::KeyValue, v),
    ensures
        entry(Syntax::KeyValue, render_line(Syntax::KeyValue, k, v)) == Some((k, v)),
        single(Syntax::KeyValue, render_line(Syntax::KeyValue, k, v)),
{
    let e = Seq::<char>::empty();
    assert(spaces(e));
    lemma_key_value_entry(e, k, e, e, v, e);
    assert(key_value_line(e, k, e, e, v, e) =~= render_line(Syntax::KeyValue, k, v));
    lemma_class_no_newline(k, Class::Name);
    lemma_class_no_newline(v, Class::Hexish);
    lemma_no_newline_add(k, seq!['=']);
    lemma_no_newline_add(k + seq!['='], v);
}

/// A written line states the key and value it was written with, and is read
/// as one unit.
pub proof fn lemma_render_line(s: Syntax, k: Seq<char>, v: Seq<char>)
    requires
        valid_key(s, k),
        valid_value(s, v),
    ensures
        entry(s, render_line(s, k, v)) == Some((k, v)),
        single(s, render_line(s, k, v)),
{
    match s {
        Syntax::Bracketed => lemma_render_bracketed(k, v),
        Syntax::Macro => lemma_render_macro(k, v),
        Syntax::DefineColor => lemma_render_define(k, v),
        Syntax::KeyValue => lemma_render_key_value(k, v),
        Syntax::TomlString => {},
    }
}

pub open spec fn field_at(l: LayoutModel, i: int, j: int) -> bool {
    0 <= i < l.sections.len() && 0 <= j < l.sections[i].fields.len()
}

pub open spec fn native_at(l: LayoutModel, i: int, j: int) -> Seq<char> {
    l.sections[i].fields[j].native
}

/// A fixed line of `l`: one unit, stating no field's key.
pub open spec fn quiet(l: LayoutModel, x: Seq<char>) -> bool {
    single(l.syntax, x) && match entry(l.syntax, x) {
        Some(p) => forall|i: int, j: int| field_at(l, i, j) ==> p.0 != native_at(l, i, j),
        None => true,
    }
}

/// The conditions under which a table's text reads back as written: valid
/// keys, no key twice, and fixed lines that state no field.
pub open spec fn lines_wf(l: LayoutModel) -> bool {
    &&& forall|i: int, j: int| field_at(l, i, j) ==> valid_key(l.syntax, native_at(l, i, j))
    &&& forall|i: int, j: int, i2: int, j2: int|
        field_at(l, i, j) && field_at(l, i2, j2) && native_at(l, i, j) == native_at(l, i2, j2)
            ==> i == i2 && j == j2
    &&& forall|q: int| 0 <= q < l.header.len() ==> quiet(l, #[trigger] l.header[q])
    &&& forall|q: int| 0 <= q < l.trailer.len() ==> quiet(l, #[trigger] l.trailer[q])
    &&& forall|i: int, q: int|
        0 <= i < l.sections.len() && 0 <= q < l.sections[i].heading.len() ==> quiet(
            l,
            #[trigger] l.sections[i].heading[q],
        )
}

/// The text written for field `j` of section `i`.
pub open spec fn text_at(l: LayoutModel, tree: crate::value::Node, i: int, j: int) -> Seq<char> {
    field_text(l, l.sections[i], l.sections[i].fields[j], tree)
}

/// Every text written for `tree` reads back unchanged.
pub open spec fn texts_valid(l: LayoutModel, tree: crate::value::Node) -> bool {
    forall|i: int, j: int| field_at(l, i, j) ==> valid_value(l.syntax, #[trigger] text_at(l, tree, i, j))
}

proof fn lemma_last_value_add(s: Syntax, a: Seq<Seq<char>>, b: Seq<Seq<char>>, k: Seq<char>)
    ensures
        last_value(s, a + b, k) == match last_value(s, b, k) {
            Some(x) => Some(x),
            None => last_value(s, a, k),
        },
    decreases b.len(),
{
    if b.len() == 0 {
        assert(a + b =~= a);
    } else {
        assert((a + b).drop_last() =~= a + b.drop_last());
        assert((a + b).last() == b.last());
        lemma_last_value_add(s, a, b.drop_last(), k);
    }
}

proof fn lemma_first_value_add(s: Syntax, a: Seq<Seq<char>>, b: Seq<Seq<char>>, k: Seq<char>)
    ensures
        first_value(s, a + b, k) == match first_value(s, a, k) {
            Some(x) => Some(x),
            None => first_value(s, b, k),
        },
    decreases a.len(),
{
    if a.len() == 0 {
        assert(a + b =~= b);
    } else {
        assert((a + b).drop_first() =~= a.drop_first() + b);
        assert((a + b)[0] == a[0]);
        lemma_first_value_add(s, a.drop_first(), b, k);
    }
}

/// Where at most one of `a` and `b` gives key `k` a value, `a + b` gives it
/// that value.
proof fn lemma_value_add(s: Syntax, a: Seq<Seq<char>>, b: Seq<Seq<char>>, k: Seq<char>)
    ensures
        value_in(s, a, k) is None ==> value_in(s, a + b, k) == value_in(s, b, k),
        value_in(s, b, k) is None ==> value_in(s, a + b, k) == value_in(s, a, k),
        value_in(s, a + b, k) == if s == Syntax::KeyValue {
            match value_in(s, a, k) {
                Some(x) => Some(x),
                None => value_in(s, b, k),
            }
        } else {
            match value_in(s, b, k) {
                Some(x) => Some(x),
                None => value_in(s, a, k),
            }
        },
{
    lemma_first_value_add(s, a, b, k);
    lemma_last_value_add(s, a, b, k);
}

proof fn lemma_value_one(s: Syntax, x: Seq<char>, k: Seq<char>)
    ensures
        value_in(s, seq![x], k) == match entry(s, x) {
            Some(p) => if p.0 == k {
                Some(p.1)
            } else {
                None
            },
            None => None,
        },
{
    let one = seq![x];
    assert(one[0] == x);
    assert(one.last() == x);
    assert(one.drop_first() =~= Seq::<Seq<char>>::empty());
    assert(one.drop_last() =~= Seq::<Seq<char>>::empty());
    assert(first_value(s, Seq::<Seq<char>>::empty(), k) is None);
    assert(last_value(s, Seq::<Seq<char>>::empty(), k) is None);
}

proof fn lemma_last_value_quiet(l: LayoutModel, a: Seq<Seq<char>>, i: int, j: int)
    requires
        field_at(l, i, j),
        forall|q: int| 0 <= q < a.len() ==> quiet(l, #[trigger] a[q]),
    ensures
        value_in(l.syntax, a, native_at(l, i, j)) is None,
    decreases a.len(),
{
    if a.len() > 0 {
        assert(quiet(l, a[a.len() - 1]));
        lemma_last_value_quiet(l, a.drop_last(), i, j);
        lemma_value_one(l.syntax, a.last(), native_at(l, i, j));
        lemma_value_add(l.syntax, a.drop_last(), seq![a.last()], native_at(l, i, j));
        assert(a.drop_last() + seq![a.last()] =~= a);
    }
}

proof fn lemma_field_lines(l: LayoutModel, t: crate::value::Node, i: int, m: int, i0: int, j0: int)
    requires
        lines_wf(l),
        texts_valid(l, t),
        0 <= i < l.sections.len(),
        0 <= m <= l.sections[i].fields.len(),
        field_at(l, i0, j0),
    ensures
        value_in(l.syntax, field_lines(l, l.sections[i], t, m), native_at(l, i0, j0)) == if i
            == i0 && j0 < m {
            Some(text_at(l, t, i0, j0))
        } else {
            None
        },
        forall|q: int| 0 <= q < m ==> single(l.syntax, #[trigger] field_lines(l, l.sections[i], t, m)[q]),
    decreases m,
{
    let fl = field_lines(l, l.sections[i], t, m);
    if m > 0 {
        let prev = field_lines(l, l.sections[i], t, m - 1);
        assert(fl.drop_last() =~= prev);
        assert(field_at(l, i, m - 1));
        assert(fl.last() == render_line(l.syntax, native_at(l, i, m - 1), text_at(l, t, i, m - 1)));
        assert(valid_value(l.syntax, text_at(l, t, i, m - 1)));
        lemma_render_line(l.syntax, native_at(l, i, m - 1), text_at(l, t, i, m - 1));
        lemma_field_lines(l, t, i, m - 1, i0, j0);
        lemma_value_one(l.syntax, fl.last(), native_at(l, i0, j0));
        lemma_value_add(l.syntax, prev, seq![fl.last()], native_at(l, i0, j0));
        assert(prev + seq![fl.last()] =~= fl);
        if native_at(l, i, m - 1) == native_at(l, i0, j0) {
            assert(field_at(l, i, m - 1));
        }
        assert forall|q: int| 0 <= q < m implies single(l.syntax, #[trigger] fl[q]) by {
            if q < m - 1 {
                assert(fl[q] == prev[q]);
            }
        }
    }
}

proof fn lemma_section_lines(l: LayoutModel, t: crate::value::Node, i: int, i0: int, j0: int)
    requires
        lines_wf(l),
        texts_valid(l, t),
        0 <= i < l.sections.len(),
        field_at(l, i0, j0),
    ensures
        value_in(l.syntax, section_lines(l, l.sections[i], t), native_at(l, i0, j0)) == if i
            == i0 {
            Some(text_at(l, t, i0, j0))
        } else {
            None
        },
        forall|q: int|
            0 <= q < section_lines(l, l.sections[i], t).len() ==> single(l.syntax, 
                #[trigger] section_lines(l, l.sections[i], t)[q],
            ),
{
    let s = l.sections[i];
    let n = s.fields.len() as int;
    let h = heading_lines(s);
    let fl = field_lines(l, s, t, n);
    lemma_field_lines(l, t, i, n, i0, j0);
    assert forall|q: int| 0 <= q < h.len() implies quiet(l, #[trigger] h[q]) by {
        assert(quiet(l, l.sections[i].heading[q]));
    }
    lemma_last_value_quiet(l, h, i0, j0);
    lemma_value_add(l.syntax, h, fl, native_at(l, i0, j0));
    assert(fl.len() == n);
    assert forall|q: int| 0 <= q < (h + fl).len() implies single(l.syntax, #[trigger] (h + fl)[q]) by {
        if q < h.len() {
            assert(quiet(l, l.sections[i].heading[q]));
        } else {
            assert((h + fl)[q] == fl[q - h.len()]);
        }
    }
}

proof fn lemma_body_lines(l: LayoutModel, t: crate::value::Node, n: int, i0: int, j0: int)
    requires
        lines_wf(l),
        texts_valid(l, t),
        0 <= n <= l.sections.len(),
        field_at(l, i0, j0),
    ensures
        value_in(l.syntax, body_lines(l, t, n), native_at(l, i0, j0)) == if i0 < n {
            Some(text_at(l, t, i0, j0))
        } else {
            None
        },
        forall|q: int|
            0 <= q < body_lines(l, t, n).len() ==> single(l.syntax, #[trigger] body_lines(l, t, n)[q]),
    decreases n,
{
    if n > 0 {
        let a = body_lines(l, t, n - 1);
        let b = section_lines(l, l.sections[n - 1], t);
        lemma_body_lines(l, t, n - 1, i0, j0);
        lemma_section_lines(l, t, n - 1, i0, j0);
        lemma_value_add(l.syntax, a, b, native_at(l, i0, j0));
        assert forall|q: int| 0 <= q < (a + b).len() implies single(l.syntax, #[trigger] (a + b)[q]) by {
            if q >= a.len() {
                assert((a + b)[q] == b[q - a.len()]);
            }
        }
    }
}

/// What each field's key last states in the rendered lines: the text
/// written for it.
proof fn lemma_rendered_lines(l: LayoutModel, t: crate::value::Node, i0: int, j0: int)
    requires
        lines_wf(l),
        texts_valid(l, t),
        field_at(l, i0, j0),
    ensures
        value_in(l.syntax, rendered_lines(l, t), native_at(l, i0, j0)) == Some(
            text_at(l, t, i0, j0),
        ),
        forall|q: int|
            0 <= q < rendered_lines(l, t).len() ==> single(l.syntax, #[trigger] rendered_lines(l, t)[q]),
{
    let hd = l.header;
    let body = body_lines(l, t, l.sections.len() as int);
    let tr = l.trailer;
    lemma_body_lines(l, t, l.sections.len() as int, i0, j0);
    lemma_last_value_quiet(l, hd, i0, j0);
    lemma_last_value_quiet(l, tr, i0, j0);
    lemma_value_add(l.syntax, hd, body, native_at(l, i0, j0));
    lemma_value_add(l.syntax, hd + body, tr, native_at(l, i0, j0));
    assert forall|q: int| 0 <= q < (hd + body + tr).len() implies single(l.syntax, 
        #[trigger] (hd + body + tr)[q],
    ) by {
        if q < hd.len() {
            assert(quiet(l, hd[q]));
        } else if q < hd.len() + body.len() {
            assert((hd + body + tr)[q] == body[q - hd.len()]);
        } else {
            assert((hd + body + tr)[q] == tr[q - hd.len() - body.len()]);
            assert(quiet(l, tr[q - hd.len() - body.len()]));
        }
    }
}

/// The values that rendering `t` writes: one per field, each present.
pub open spec fn written(l: LayoutModel, t: crate::value::Node) -> Seq<Seq<Option<Seq<char>>>> {
    l.sections.map_values(
        |s: SectionModel| s.fields.map_values(|f: FieldModel| Some(field_text(l, s, f, t))),
    )
}

/// Parsing the text rendered for `t` yields, for every field, the text that
/// was written for it.
pub proof fn lemma_parse_rendered(l: LayoutModel, t: crate::value::Node)
    requires
        lines_wf(l),
        texts_valid(l, t),
    ensures
        parsed_values(l, rendered(l, t)) == written(l, t),
{
    let lines = rendered_lines(l, t);
    if exists|i: int, j: int| field_at(l, i, j) {
        let (i, j) = choose|i: int, j: int| field_at(l, i, j);
        lemma_rendered_lines(l, t, i, j);
    } else {
        assert forall|i: int| 0 <= i < l.sections.len() implies l.sections[i].fields.len() == 0 by {
            if l.sections[i].fields.len() > 0 {
                assert(field_at(l, i, 0));
            }
        }
        lemma_no_fields_lines(l, t);
    }
    lemma_units_of_join(l.syntax, lines);
    let pv = parsed_values(l, rendered(l, t));
    let w = written(l, t);
    assert forall|i: int| 0 <= i < l.sections.len() implies #[trigger] pv[i] =~= w[i] by {
        assert forall|j: int| 0 <= j < l.sections[i].fields.len() implies pv[i][j] == w[i][j] by {
            assert(field_at(l, i, j));
            lemma_rendered_lines(l, t, i, j);
        }
    }
    assert(pv =~= w);
}

proof fn lemma_no_fields_lines(l: LayoutModel, t: crate::value::Node)
    requires
        lines_wf(l),
        forall|i: int| 0 <= i < l.sections.len() ==> l.sections[i].fields.len() == 0,
    ensures
        forall|q: int|
            0 <= q < rendered_lines(l, t).len() ==> single(l.syntax, #[trigger] rendered_lines(l, t)[q]),
{
    lemma_body_newlines(l, t, l.sections.len() as int);
    let hd = l.header;
    let body = body_lines(l, t, l.sections.len() as int);
    let tr = l.trailer;
    assert forall|q: int| 0 <= q < (hd + body + tr).len() implies single(l.syntax, 
        #[trigger] (hd + body + tr)[q],
    ) by {
        if q < hd.len() {
            assert(quiet(l, hd[q]));
        } else if q < hd.len() + body.len() {
            assert((hd + body + tr)[q] == body[q - hd.len()]);
        } else {
            assert((hd + body + tr)[q] == tr[q - hd.len() - body.len()]);
            assert(quiet(l, tr[q - hd.len() - body.len()]));
        }
    }
}

proof fn lemma_body_newlines(l: LayoutModel, t: crate::value::Node, n: int)
    requires
        lines_wf(l),
        0 <= n <= l.sections.len(),
        forall|i: int| 0 <= i < n ==> l.sections[i].fields.len() == 0,
    ensures
        forall|q: int|
            0 <= q < body_lines(l, t, n).len() ==> single(l.syntax, #[trigger] body_lines(l, t, n)[q]),
    decreases n,
{
    if n > 0 {
        lemma_body_newlines(l, t, n - 1);
        let a = body_lines(l, t, n - 1);
        let s = l.sections[n - 1];
        let b = section_lines(l, s, t);
        assert(field_lines(l, s, t, 0) =~= Seq::<Seq<char>>::empty());
        assert(b =~= heading_lines(s));
        assert forall|q: int| 0 <= q < (a + b).len() implies single(l.syntax, #[trigger] (a + b)[q]) by {
            if q >= a.len() {
                assert((a + b)[q] == b[q - a.len()]);
                assert(quiet(l, l.sections[n - 1].heading[q - a.len()]));
            }
        }
    }
}

// ------------------------------------------------------------------ trees

/// The shape conditions under which a field can be read back out of the tree
/// that holds it: either every section is named, not empty, and named once,
/// or there is one section without a name; and the native keys are all
/// identifiers or all kebab-case, so that distinct keys stay distinct in the
/// tree.
pub open spec fn tree_wf(l: LayoutModel) -> bool {
    &&& (forall|i: int|
        0 <= i < l.sections.len() ==> (#[trigger] l.sections[i]).name is Some
            && l.sections[i].fields.len() > 0) || (l.sections.len() == 1
        && l.sections[0].name is None)
    &&& forall|i: int, i2: int|
        0 <= i < l.sections.len() && 0 <= i2 < l.sections.len() && l.sections[i].name is Some
            && l.sections[i].name == l.sections[i2].name ==> i == i2
    &&& (forall|i: int, j: int| field_at(l, i, j) ==> all_in(#[trigger] native_at(l, i, j), Class::Ident))
        || (forall|i: int, j: int| field_at(l, i, j) ==> all_in(#[trigger] native_at(l, i, j), Class::Kebab))
}

/// `vss` holds a value for every field of `l`.
pub open spec fn full(l: LayoutModel, vss: Seq<Seq<Option<Seq<char>>>>) -> bool {
    &&& vss.len() == l.sections.len()
    &&& forall|i: int| 0 <= i < vss.len() ==> (#[trigger] vss[i]).len() == l.sections[i].fields.len()
    &&& forall|i: int, j: int| field_at(l, i, j) ==> (#[trigger] vss[i][j]) is Some
}

proof fn lemma_key_of_ident(x: Seq<char>)
    requires
        all_in(x, Class::Ident),
    ensures
        key_of(x) == x,
{
    assert forall|m: int| 0 <= m < x.len() implies key_of(x)[m] == x[m] by {
        assert(in_class(x[m], Class::Ident));
    }
    assert(key_of(x) =~= x);
}

proof fn lemma_key_of_kebab(a: Seq<char>, b: Seq<char>)
    requires
        all_in(a, Class::Kebab),
        all_in(b, Class::Kebab),
        key_of(a) == key_of(b),
    ensures
        a == b,
{
    assert(a.len() == key_of(a).len());
    assert(b.len() == key_of(b).len());
    assert forall|m: int| 0 <= m < a.len() implies a[m] == b[m] by {
        assert(in_class(a[m], Class::Kebab));
        assert(in_class(b[m], Class::Kebab));
        assert(key_of(a)[m] == key_of(b)[m]);
        assert(key_of(a)[m] == (if a[m] == '-' { '_' } else { a[m] }));
        assert(key_of(b)[m] == (if b[m] == '-' { '_' } else { b[m] }));
    }
    assert(a =~= b);
}

proof fn lemma_keys_distinct(l: LayoutModel, i: int, j: int, j2: int)
    requires
        lines_wf(l),
        tree_wf(l),
        field_at(l, i, j),
        field_at(l, i, j2),
        j != j2,
    ensures
        key_of(native_at(l, i, j)) != key_of(native_at(l, i, j2)),
{
    if forall|i: int, j: int| field_at(l, i, j) ==> all_in(#[trigger] native_at(l, i, j), Class::Ident) {
        lemma_key_of_ident(native_at(l, i, j));
        lemma_key_of_ident(native_at(l, i, j2));
    } else {
        if key_of(native_at(l, i, j)) == key_of(native_at(l, i, j2)) {
            lemma_key_of_kebab(native_at(l, i, j), native_at(l, i, j2));
        }
    }
}

proof fn lemma_find(es: Seq<(Seq<char>, Node)>, k: Seq<char>, i: int, m: int)
    requires
        0 <= m <= i < es.len(),
        es[i].0 == k,
        forall|j: int| 0 <= j < i ==> (#[trigger] es[j]).0 != k,
    ensures
        find_from(es, k, m) == Some(es[i].1),
    decreases i - m,
{
    if m < i {
        lemma_find(es, k, i, m + 1);
    }
}

proof fn lemma_present_full(fs: Seq<FieldModel>, vs: Seq<Option<Seq<char>>>, n: int)
    requires
        0 <= n <= vs.len(),
        forall|j: int| 0 <= j < n ==> (#[trigger] vs[j]) is Some,
    ensures
        present(fs, vs, n).len() == n,
        forall|j: int|
            0 <= j < n ==> #[trigger] present(fs, vs, n)[j] == (
                key_of(fs[j].native),
                Node::Str(vs[j]->0),
            ),
    decreases n,
{
    if n > 0 {
        lemma_present_full(fs, vs, n - 1);
    }
}

proof fn lemma_colors_named(l: LayoutModel, vss: Seq<Seq<Option<Seq<char>>>>, n: int)
    requires
        full(l, vss),
        0 <= n <= l.sections.len(),
        forall|i: int|
            0 <= i < l.sections.len() ==> (#[trigger] l.sections[i]).name is Some
                && l.sections[i].fields.len() > 0,
    ensures
        colors_entries(l.sections, vss, n).len() == n,
        forall|i: int|
            0 <= i < n ==> #[trigger] colors_entries(l.sections, vss, n)[i] == (
                l.sections[i].name->0,
                Node::Table(
                    present(l.sections[i].fields, vss[i], l.sections[i].fields.len() as int),
                ),
            ),
    decreases n,
{
    if n > 0 {
        lemma_colors_named(l, vss, n - 1);
        let i = n - 1;
        assert forall|j: int| 0 <= j < l.sections[i].fields.len() implies (#[trigger] vss[i][j]) is Some by {
            assert(field_at(l, i, j));
        }
        lemma_present_full(l.sections[i].fields, vss[i], l.sections[i].fields.len() as int);
    }
}

/// A field reads back out of the tree that holds it.
proof fn lemma_tree_reads(l: LayoutModel, vss: Seq<Seq<Option<Seq<char>>>>, i: int, j: int)
    requires
        lines_wf(l),
        tree_wf(l),
        full(l, vss),
        field_at(l, i, j),
    ensures
        text_at(l, tree_of(l, vss), i, j) == vss[i][j]->0,
{
    let t = tree_of(l, vss);
    let s = l.sections[i];
    let n = l.sections.len() as int;
    let cs = colors_entries(l.sections, vss, n);
    assert forall|jj: int| 0 <= jj < s.fields.len() implies (#[trigger] vss[i][jj]) is Some by {
        assert(field_at(l, i, jj));
    }
    lemma_present_full(s.fields, vss[i], s.fields.len() as int);
    let es = present(s.fields, vss[i], s.fields.len() as int);
    let k = key_of(s.fields[j].native);
    assert forall|jj: int| 0 <= jj < j implies (#[trigger] es[jj]).0 != k by {
        assert(field_at(l, i, jj));
        lemma_keys_distinct(l, i, jj, j);
    }
    lemma_find(es, k, j, 0);
    let root = seq![(l.app, Node::Table(if cs.len() == 0 { Seq::empty() } else { seq![(colors_key(), Node::Table(cs))] }))];
    lemma_find(root, l.app, 0, 0);
    if forall|ii: int|
        0 <= ii < l.sections.len() ==> (#[trigger] l.sections[ii]).name is Some
            && l.sections[ii].fields.len() > 0 {
        lemma_colors_named(l, vss, n);
        assert(cs.len() > 0);
        lemma_find(seq![(colors_key(), Node::Table(cs))], colors_key(), 0, 0);
        assert forall|ii: int| 0 <= ii < i implies (#[trigger] cs[ii]).0 != s.name->0 by {
            assert(l.sections[ii].name is Some);
        }
        lemma_find(cs, s.name->0, i, 0);
        assert(section_node(l, s, t) == Some(Node::Table(es)));
    } else {
        assert(n == 1 && i == 0);
        assert(l.sections[0].name is None);
        assert(colors_entries(l.sections, vss, 0) == Seq::<(Seq<char>, Node)>::empty());
        assert(cs == colors_entries(l.sections, vss, 0) + es);
        assert(cs =~= es);
        assert(es.len() > 0);
        lemma_find(seq![(colors_key(), Node::Table(cs))], colors_key(), 0, 0);
        assert(section_node(l, s, t) == Some(Node::Table(es)));
    }
}

/// Rendering the tree that holds a value for every field, then parsing the
/// text, gives that tree back, where each value is one the syntax writes and
/// reads unchanged.
pub proof fn law_round_trip(l: LayoutModel, vss: Seq<Seq<Option<Seq<char>>>>)
    requires
        lines_wf(l),
        tree_wf(l),
        full(l, vss),
        forall|i: int, j: int| field_at(l, i, j) ==> valid_value(l.syntax, #[trigger] vss[i][j]->0),
    ensures
        parsed(l, rendered(l, tree_of(l, vss))) == tree_of(l, vss),
{
    let t = tree_of(l, vss);
    assert forall|i: int, j: int| field_at(l, i, j) implies valid_value(
        l.syntax,
        #[trigger] text_at(l, t, i, j),
    ) by {
        lemma_tree_reads(l, vss, i, j);
        assert(valid_value(l.syntax, vss[i][j]->0));
    }
    lemma_parse_rendered(l, t);
    let w = written(l, t);
    assert forall|i: int| 0 <= i < l.sections.len() implies #[trigger] w[i] =~= vss[i] by {
        assert forall|j: int| 0 <= j < l.sections[i].fields.len() implies w[i][j] == vss[i][j] by {
            assert(field_at(l, i, j));
            lemma_tree_reads(l, vss, i, j);
        }
    }
    assert(w =~= vss);
}

/// Two cycles of rendering and parsing give what one gives, for a tree whose
/// written texts the syntax reads back unchanged.
pub proof fn law_fixed_point(l: LayoutModel, t: Node)
    requires
        lines_wf(l),
        tree_wf(l),
        texts_valid(l, t),
    ensures
        parsed(l, rendered(l, parsed(l, rendered(l, t)))) == parsed(l, rendered(l, t)),
{
    lemma_parse_rendered(l, t);
    let w = written(l, t);
    assert forall|i: int, j: int| field_at(l, i, j) implies valid_value(l.syntax, #[trigger] w[i][j]->0) by {
        assert(valid_value(l.syntax, text_at(l, t, i, j)));
    }
    assert forall|i: int, j: int| field_at(l, i, j) implies (#[trigger] w[i][j]) is Some by {}
    law_round_trip(l, w);
}

proof fn lemma_last_value_same(s: Syntax, a: Seq<Seq<char>>, b: Seq<Seq<char>>, k: Seq<char>)
    requires
        a.len() == b.len(),
        forall|q: int| 0 <= q < a.len() ==> entry(s, #[trigger] a[q]) == entry(s, b[q]),
    ensures
        last_value(s, a, k) == last_value(s, b, k),
        first_value(s, a, k) == first_value(s, b, k),
    decreases a.len(),
{
    if a.len() > 0 {
        assert(entry(s, a[a.len() - 1]) == entry(s, b[b.len() - 1]));
        assert(entry(s, a[0]) == entry(s, b[0]));
        assert forall|q: int| 0 <= q < a.drop_last().len() implies entry(s, #[trigger] a.drop_last()[q])
            == entry(s, b.drop_last()[q]) by {
            assert(entry(s, a[q]) == entry(s, b[q]));
        }
        assert forall|q: int| 0 <= q < a.drop_first().len() implies entry(
            s,
            #[trigger] a.drop_first()[q],
        ) == entry(s, b.drop_first()[q]) by {
            assert(entry(s, a[q + 1]) == entry(s, b[q + 1]));
        }
        lemma_last_value_same(s, a.drop_last(), b.drop_last(), k);
        lemma_last_value_same(s, a.drop_first(), b.drop_first(), k);
    }
}

/// A line put in place of another that states the same entry, such as the
/// same line with other white space around its tokens, leaves what the text
/// parses to unchanged.
pub proof fn law_same_entry_line(
    l: LayoutModel,
    a: Seq<Seq<char>>,
    x: Seq<char>,
    y: Seq<char>,
    b: Seq<Seq<char>>,
)
    requires
        forall|q: int| 0 <= q < a.len() ==> single(l.syntax, #[trigger] a[q]),
        forall|q: int| 0 <= q < b.len() ==> single(l.syntax, #[trigger] b[q]),
        single(l.syntax, x),
        single(l.syntax, y),
        entry(l.syntax, x) == entry(l.syntax, y),
    ensures
        parsed(l, join(a + seq![x] + b)) == parsed(l, join(a + seq![y] + b)),
{
    let lx = a + seq![x] + b;
    let ly = a + seq![y] + b;
    assert forall|q: int| 0 <= q < lx.len() implies single(l.syntax, #[trigger] lx[q]) by {
        if q < a.len() {
            assert(lx[q] == a[q]);
        } else if q > a.len() {
            assert(lx[q] == b[q - a.len() - 1]);
        }
    }
    assert forall|q: int| 0 <= q < ly.len() implies single(l.syntax, #[trigger] ly[q]) by {
        if q < a.len() {
            assert(ly[q] == a[q]);
        } else if q > a.len() {
            assert(ly[q] == b[q - a.len() - 1]);
        }
    }
    lemma_units_of_join(l.syntax, lx);
    lemma_units_of_join(l.syntax, ly);
    assert forall|q: int| 0 <= q < lx.len() implies entry(l.syntax, #[trigger] lx[q]) == entry(
        l.syntax,
        ly[q],
    ) by {
        if q < a.len() {
            assert(lx[q] == a[q] && ly[q] == a[q]);
        } else if q > a.len() {
            assert(lx[q] == b[q - a.len() - 1] && ly[q] == b[q - a.len() - 1]);
        }
    }
    let px = parsed_values(l, join(lx));
    let py = parsed_values(l, join(ly));
    assert forall|i: int| 0 <= i < l.sections.len() implies #[trigger] px[i] =~= py[i] by {
        assert forall|j: int| 0 <= j < l.sections[i].fields.len() implies px[i][j] == py[i][j] by {
            lemma_last_value_same(l.syntax, lx, ly, l.sections[i].fields[j].native);
        }
    }
    assert(px =~= py);
}

/// Extra spaces around the tokens of a `$name = rgba(value)` line leave what
/// the text parses to unchanged: it parses as the line written without them.
pub proof fn law_macro_whitespace(
    l: LayoutModel,
    a: Seq<Seq<char>>,
    b: Seq<Seq<char>>,
    p0: Seq<char>,
    k: Seq<char>,
    p1: Seq<char>,
    p2: Seq<char>,
    p3: Seq<char>,
    v: Seq<char>,
    p4: Seq<char>,
    p5: Seq<char>,
)
    requires
        l.syntax == Syntax::Macro,
        forall|q: int| 0 <= q < a.len() ==> single(l.syntax, #[trigger] a[q]),
        forall|q: int| 0 <= q < b.len() ==> single(l.syntax, #[trigger] b[q]),
        spaces(p0),
        spaces(p1),
        spaces(p2),
        spaces(p3),
        spaces(p4),
        spaces(p5),
        k.len() > 0,
        all_in(k, Class::Ident),
        macro_value(v),
    ensures
        parsed(l, join(a + seq![macro_line(p0, k, p1, p2, p3, v, p4, p5)] + b)) == parsed(
            l,
            join(a + seq![render_line(Syntax::Macro, k, v)] + b),
        ),
{
    let x = macro_line(p0, k, p1, p2, p3, v, p4, p5);
    lemma_macro_entry(p0, k, p1, p2, p3, v, p4, p5);
    lemma_render_line(Syntax::Macro, k, v);
    lemma_class_no_newline(p0, Class::Space);
    lemma_class_no_newline(p1, Class::Space);
    lemma_class_no_newline(p2, Class::Space);
    lemma_class_no_newline(p3, Class::Space);
    lemma_class_no_newline(p4, Class::Space);
    lemma_class_no_newline(p5, Class::Space);
    lemma_class_no_newline(k, Class::Ident);
    let r = seq!['r', 'g', 'b', 'a', '('];
    lemma_no_newline_add(p0, seq!['$']);
    lemma_no_newline_add(p0 + seq!['$'], k);
    lemma_no_newline_add(p0 + seq!['$'] + k, p1);
    lemma_no_newline_add(p0 + seq!['$'] + k + p1, seq!['=']);
    lemma_no_newline_add(p0 + seq!['$'] + k + p1 + seq!['='], p2);
    lemma_no_newline_add(p0 + seq!['$'] + k + p1 + seq!['='] + p2, r);
    lemma_no_newline_add(p0 + seq!['$'] + k + p1 + seq!['='] + p2 + r, p3);
    lemma_no_newline_add(p0 + seq!['$'] + k + p1 + seq!['='] + p2 + r + p3, v);
    lemma_no_newline_add(p0 + seq!['$'] + k + p1 + seq!['='] + p2 + r + p3 + v, p4);
    lemma_no_newline_add(p0 + seq!['$'] + k + p1 + seq!['='] + p2 + r + p3 + v + p4, seq![')']);
    lemma_no_newline_add(
        p0 + seq!['$'] + k + p1 + seq!['='] + p2 + r + p3 + v + p4 + seq![')'],
        p5,
    );
    law_same_entry_line(l, a, x, render_line(Syntax::Macro, k, v), b);
}

proof fn lemma_define_line_single(
    p0: Seq<char>,
    q1: Seq<char>,
    k: Seq<char>,
    q2: Seq<char>,
    v: Seq<char>,
    p3: Seq<char>,
)
    requires
        spaces(p0),
        blanks(q1),
        blanks(q2),
        blanks(p3),
        all_in(k, Class::Name),
        all_in(v, Class::NotSemi),
    ensures
        single(Syntax::DefineColor, define_line(p0, q1, k, q2, v, p3, Seq::empty())),
{
    let x = define_line(p0, q1, k, q2, v, p3, Seq::empty());
    let a = p0.len() as int;
    let c = a + 13 + q1.len();
    let d = c + k.len();
    let e = d + q2.len();
    let h = e + v.len();
    assert(x.len() == h + p3.len() + 1);
    assert forall|m: int| 0 <= m < a implies in_class(#[trigger] x[m], Class::Space) by {
        assert(x[m] == p0[m]);
    }
    assert(x.subrange(a, a + 13) =~= define_word());
    assert forall|m: int| 0 <= m < x.len() - 1 implies in_class(#[trigger] x[m], Class::NotSemi) by {
        if m < a {
            assert(x[m] == p0[m]);
            assert(in_class(p0[m], Class::Space));
        } else if m < a + 13 {
            assert(x[m] == define_word()[m - a]);
        } else if m < c {
            assert(x[m] == q1[m - a - 13]);
            assert(in_class(q1[m - a - 13], Class::Blank));
        } else if m < d {
            assert(x[m] == k[m - c]);
            assert(in_class(k[m - c], Class::Name));
        } else if m < e {
            assert(x[m] == q2[m - d]);
            assert(in_class(q2[m - d], Class::Blank));
        } else if m < h {
            assert(x[m] == v[m - e]);
        } else {
            assert(x[m] == p3[m - h]);
            assert(in_class(p3[m - h], Class::Blank));
        }
    }
    lemma_decl_single(x, a);
}

/// Extra white space around the tokens of a `@define-color` declaration,
/// line feeds included after `@define-color`, leaves what the text parses to
/// unchanged: it parses as the declaration written without it.
pub proof fn law_define_whitespace(
    l: LayoutModel,
    a: Seq<Seq<char>>,
    b: Seq<Seq<char>>,
    p0: Seq<char>,
    q1: Seq<char>,
    k: Seq<char>,
    q2: Seq<char>,
    v: Seq<char>,
    p3: Seq<char>,
)
    requires
        l.syntax == Syntax::DefineColor,
        forall|q: int| 0 <= q < a.len() ==> single(l.syntax, #[trigger] a[q]),
        forall|q: int| 0 <= q < b.len() ==> single(l.syntax, #[trigger] b[q]),
        spaces(p0),
        blanks(q1),
        q1.len() > 0,
        blanks(q2),
        q2.len() > 0,
        blanks(p3),
        k.len() > 0,
        all_in(k, Class::Name),
        define_value(v),
    ensures
        parsed(l, join(a + seq![define_line(p0, q1, k, q2, v, p3, Seq::empty())] + b)) == parsed(
            l,
            join(a + seq![render_line(Syntax::DefineColor, k, v)] + b),
        ),
{
    let x = define_line(p0, q1, k, q2, v, p3, Seq::empty());
    lemma_define_entry(p0, q1, k, q2, v, p3, Seq::empty());
    lemma_render_line(Syntax::DefineColor, k, v);
    lemma_define_line_single(p0, q1, k, q2, v, p3);
    law_same_entry_line(l, a, x, render_line(Syntax::DefineColor, k, v), b);
}

proof fn lemma_swap_units(s: Syntax, a: Seq<Seq<char>>, x: Seq<char>, y: Seq<char>, b: Seq<Seq<char>>)
    requires
        forall|q: int| 0 <= q < a.len() ==> single(s, #[trigger] a[q]),
        forall|q: int| 0 <= q < b.len() ==> single(s, #[trigger] b[q]),
        single(s, x),
        single(s, y),
        entry(s, x) == entry(s, y),
    ensures
        units_of(s, join(a + seq![x] + b)) == a + seq![x] + b,
        units_of(s, join(a + seq![y] + b)) == a + seq![y] + b,
        forall|q: int|
            0 <= q < (a + seq![x] + b).len() ==> entry(s, #[trigger] (a + seq![x] + b)[q]) == entry(
                s,
                (a + seq![y] + b)[q],
            ),
{
    let lx = a + seq![x] + b;
    let ly = a + seq![y] + b;
    assert forall|q: int| 0 <= q < lx.len() implies single(s, #[trigger] lx[q]) by {
        if q < a.len() {
            assert(lx[q] == a[q]);
        } else if q > a.len() {
            assert(lx[q] == b[q - a.len() - 1]);
        }
    }
    assert forall|q: int| 0 <= q < ly.len() implies single(s, #[trigger] ly[q]) by {
        if q < a.len() {
            assert(ly[q] == a[q]);
        } else if q > a.len() {
            assert(ly[q] == b[q - a.len() - 1]);
        }
    }
    lemma_units_of_join(s, lx);
    lemma_units_of_join(s, ly);
    assert forall|q: int| 0 <= q < lx.len() implies entry(s, #[trigger] lx[q]) == entry(s, ly[q]) by {
        if q < a.len() {
            assert(lx[q] == a[q] && ly[q] == a[q]);
        } else if q > a.len() {
            assert(lx[q] == b[q - a.len() - 1] && ly[q] == b[q - a.len() - 1]);
        }
    }
}

proof fn lemma_declared_same(names: Seq<Seq<char>>, t1: Seq<char>, t2: Seq<char>, n: int)
    requires
        units_of(Syntax::DefineColor, t1).len() == units_of(Syntax::DefineColor, t2).len(),
        forall|q: int|
            0 <= q < units_of(Syntax::DefineColor, t1).len() ==> entry(
                Syntax::DefineColor,
                #[trigger] units_of(Syntax::DefineColor, t1)[q],
            ) == entry(Syntax::DefineColor, units_of(Syntax::DefineColor, t2)[q]),
    ensures
        declared(names, t1, n) == declared(names, t2, n),
    decreases n,
{
    if n > 0 {
        lemma_declared_same(names, t1, t2, n - 1);
        lemma_last_value_same(
            Syntax::DefineColor,
            units_of(Syntax::DefineColor, t1),
            units_of(Syntax::DefineColor, t2),
            names[n - 1],
        );
    }
}

/// Extra white space around the tokens of a `@define-color` declaration,
/// line feeds included after `@define-color`, leaves what the extractor
/// finds unchanged.
#[verifier::spinoff_prover]
pub proof fn law_declared_whitespace(
    names: Seq<Seq<char>>,
    a: Seq<Seq<char>>,
    b: Seq<Seq<char>>,
    p0: Seq<char>,
    q1: Seq<char>,
    k: Seq<char>,
    q2: Seq<char>,
    v: Seq<char>,
    p3: Seq<char>,
)
    requires
        forall|q: int| 0 <= q < a.len() ==> single(Syntax::DefineColor, #[trigger] a[q]),
        forall|q: int| 0 <= q < b.len() ==> single(Syntax::DefineColor, #[trigger] b[q]),
        spaces(p0),
        blanks(q1),
        q1.len() > 0,
        blanks(q2),
        q2.len() > 0,
        blanks(p3),
        k.len() > 0,
        all_in(k, Class::Name),
        define_value(v),
    ensures
        declared(
            names,
            join(a + seq![define_line(p0, q1, k, q2, v, p3, Seq::empty())] + b),
            names.len() as int,
        ) == declared(
            names,
            join(a + seq![render_line(Syntax::DefineColor, k, v)] + b),
            names.len() as int,
        ),
{
    let s = Syntax::DefineColor;
    let x = define_line(p0, q1, k, q2, v, p3, Seq::empty());
    let y = render_line(s, k, v);
    lemma_define_entry(p0, q1, k, q2, v, p3, Seq::empty());
    lemma_render_line(s, k, v);
    lemma_define_line_single(p0, q1, k, q2, v, p3);
    let lx = a + seq![x] + b;
    let ly = a + seq![y] + b;
    lemma_swap_units(s, a, x, y, b);
    lemma_declared_same(names, join(lx), join(ly), names.len() as int);
}

// ------------------------------------------------------ parsed values

proof fn lemma_split_no_newline(s: Syntax, t: Seq<char>, n: int)
    requires
        s != Syntax::DefineColor,
        0 <= n <= t.len(),
    ensures
        forall|q: int|
            0 <= q < unit_state(s, t, n).0.len() ==> no_newline(#[trigger] unit_state(s, t, n).0[q]),
        no_newline(unit_state(s, t, n).1),
    decreases n,
{
    if n > 0 {
        lemma_split_no_newline(s, t, n - 1);
        let (ls, cur) = unit_state(s, t, n - 1);
        if t[n - 1] == '\n' {
            assert forall|q: int| 0 <= q < ls.push(cur).len() implies no_newline(
                #[trigger] ls.push(cur)[q],
            ) by {
                if q < ls.len() {
                    assert(ls.push(cur)[q] == ls[q]);
                }
            }
        } else {
            assert forall|m: int| 0 <= m < cur.push(t[n - 1]).len() implies #[trigger] cur.push(
                t[n - 1],
            )[m] != '\n' by {
                if m < cur.len() {
                    assert(cur.push(t[n - 1])[m] == cur[m]);
                }
            }
        }
    }
}

/// No unit of a line-oriented syntax holds a line feed.
pub proof fn lemma_units_no_newline(s: Syntax, t: Seq<char>)
    requires
        s != Syntax::DefineColor,
    ensures
        forall|q: int| 0 <= q < units_of(s, t).len() ==> no_newline(#[trigger] units_of(s, t)[q]),
{
    lemma_split_no_newline(s, t, t.len() as int);
    let (ls, cur) = unit_state(s, t, t.len() as int);
    assert forall|q: int| 0 <= q < units_of(s, t).len() implies no_newline(
        #[trigger] units_of(s, t)[q],
    ) by {
        if cur.len() != 0 && q == ls.len() {
            assert(units_of(s, t)[q] == cur);
        } else {
            assert(units_of(s, t)[q] == ls[q]);
        }
    }
}

proof fn lemma_run_end_props(l: Seq<char>, i: int, c: Class)
    requires
        0 <= i <= l.len(),
    ensures
        i <= run_end(l, i, c) <= l.len(),
        forall|m: int| i <= m < run_end(l, i, c) ==> in_class(#[trigger] l[m], c),
        run_end(l, i, c) < l.len() ==> !in_class(l[run_end(l, i, c)], c),
    decreases l.len() - i,
{
    if i < l.len() && in_class(l[i], c) {
        lemma_run_end_props(l, i + 1, c);
    }
}

proof fn lemma_trim_end_props(l: Seq<char>, lo: int, hi: int, c: Class)
    requires
        0 <= lo <= hi <= l.len(),
    ensures
        lo <= trim_end(l, lo, hi, c) <= hi,
        trim_end(l, lo, hi, c) > lo ==> !in_class(l[trim_end(l, lo, hi, c) - 1], c),
    decreases hi - lo,
{
    if hi > lo && in_class(l[hi - 1], c) {
        lemma_trim_end_props(l, lo, hi - 1, c);
    }
}

proof fn lemma_sub_no_newline(l: Seq<char>, a: int, b: int)
    requires
        0 <= a <= b <= l.len(),
        no_newline(l),
    ensures
        no_newline(l.subrange(a, b)),
{
    assert forall|m: int| 0 <= m < b - a implies l.subrange(a, b)[m] != '\n' by {
        assert(l.subrange(a, b)[m] == l[a + m]);
    }
}

/// The value that a line states is one its syntax writes and reads back
/// unchanged.
#[verifier::spinoff_prover]
#[verifier::rlimit(60)]
pub proof fn lemma_entry_valid(s: Syntax, l: Seq<char>)
    requires
        s != Syntax::DefineColor ==> no_newline(l),
        entry(s, l) is Some,
    ensures
        valid_value(s, (entry(s, l)->0).1),
{
    let v = (entry(s, l)->0).1;
    match s {
        Syntax::Bracketed => {
            let a = run_end(l, 0, Class::Space);
            lemma_run_end_props(l, 0, Class::Space);
            let c = run_end(l, a + 6, Class::Ident);
            lemma_run_end_props(l, a + 6, Class::Ident);
            let d = run_end(l, c + 1, Class::Space);
            lemma_run_end_props(l, c + 1, Class::Space);
            let e = run_end(l, d + 1, Class::Space);
            lemma_run_end_props(l, d + 1, Class::Space);
            let f = run_end(l, e + 1, Class::NotQuote);
            lemma_run_end_props(l, e + 1, Class::NotQuote);
            lemma_sub_no_newline(l, e + 1, f);
            assert forall|m: int| 0 <= m < v.len() implies in_class(#[trigger] v[m], Class::NotQuote) by {
                assert(v[m] == l[e + 1 + m]);
            }
        },
        Syntax::Macro => {
            let a = run_end(l, 0, Class::Space);
            lemma_run_end_props(l, 0, Class::Space);
            let c = run_end(l, a + 1, Class::Ident);
            lemma_run_end_props(l, a + 1, Class::Ident);
            let d = run_end(l, c, Class::Space);
            lemma_run_end_props(l, c, Class::Space);
            let e = run_end(l, d + 1, Class::Space);
            lemma_run_end_props(l, d + 1, Class::Space);
            let f = run_end(l, e + 5, Class::Space);
            lemma_run_end_props(l, e + 5, Class::Space);
            let g = run_end(l, f, Class::NotParen);
            lemma_run_end_props(l, f, Class::NotParen);
            let h = trim_end(l, f, g, Class::Space);
            lemma_trim_end_props(l, f, g, Class::Space);
            lemma_sub_no_newline(l, f, h);
            assert forall|m: int| 0 <= m < v.len() implies in_class(#[trigger] v[m], Class::NotParen) by {
                assert(v[m] == l[f + m]);
            }
            assert(v[0] == l[f]);
            assert(v[v.len() - 1] == l[h - 1]);
        },
        Syntax::DefineColor => {
            let a = run_end(l, 0, Class::Space);
            lemma_run_end_props(l, 0, Class::Space);
            let c = run_end(l, a + 13, Class::Blank);
            lemma_run_end_props(l, a + 13, Class::Blank);
            let d = run_end(l, c, Class::Name);
            lemma_run_end_props(l, c, Class::Name);
            let e = run_end(l, d, Class::Blank);
            lemma_run_end_props(l, d, Class::Blank);
            let f = run_end(l, e, Class::NotSemi);
            lemma_run_end_props(l, e, Class::NotSemi);
            let h = trim_end(l, e, f, Class::Blank);
            lemma_trim_end_props(l, e, f, Class::Blank);
            assert forall|m: int| 0 <= m < v.len() implies in_class(#[trigger] v[m], Class::NotSemi) by {
                assert(v[m] == l[e + m]);
            }
            assert(v[0] == l[e]);
            assert(v[v.len() - 1] == l[h - 1]);
        },
        Syntax::KeyValue => {
            let a = run_end(l, 0, Class::Space);
            lemma_run_end_props(l, 0, Class::Space);
            let b = run_end(l, a, Class::Name);
            lemma_run_end_props(l, a, Class::Name);
            let c = run_end(l, b, Class::Space);
            lemma_run_end_props(l, b, Class::Space);
            let d = run_end(l, c + 1, Class::Space);
            lemma_run_end_props(l, c + 1, Class::Space);
            let e = run_end(l, d, Class::Hexish);
            lemma_run_end_props(l, d, Class::Hexish);
            assert forall|m: int| 0 <= m < v.len() implies in_class(#[trigger] v[m], Class::Hexish) by {
                assert(v[m] == l[d + m]);
            }
        },
        Syntax::TomlString => {},
    }
}

proof fn lemma_last_value_valid(s: Syntax, ls: Seq<Seq<char>>, k: Seq<char>)
    requires
        s != Syntax::DefineColor ==> forall|q: int| 0 <= q < ls.len() ==> no_newline(#[trigger] ls[q]),
    ensures
        last_value(s, ls, k) matches Some(v) ==> valid_value(s, v),
        first_value(s, ls, k) matches Some(v) ==> valid_value(s, v),
        value_in(s, ls, k) matches Some(v) ==> valid_value(s, v),
    decreases ls.len(),
{
    if ls.len() > 0 {
        if s != Syntax::DefineColor {
            assert(no_newline(ls[ls.len() - 1]));
            assert(no_newline(ls[0]));
        }
        if entry(s, ls.last()) is Some {
            lemma_entry_valid(s, ls.last());
        }
        if entry(s, ls[0]) is Some {
            lemma_entry_valid(s, ls[0]);
        }
        if s != Syntax::DefineColor {
            assert forall|q: int| 0 <= q < ls.drop_first().len() implies no_newline(
                #[trigger] ls.drop_first()[q],
            ) by {
                assert(no_newline(ls[q + 1]));
            }
        }
        lemma_last_value_valid(s, ls.drop_last(), k);
        lemma_last_value_valid(s, ls.drop_first(), k);
    }
}

// --------------------------------------------------- partly filled trees

/// `vss` holds one value, present or not, for every field of `l`.
pub open spec fn shaped(l: LayoutModel, vss: Seq<Seq<Option<Seq<char>>>>) -> bool {
    &&& vss.len() == l.sections.len()
    &&& forall|i: int| 0 <= i < vss.len() ==> (#[trigger] vss[i]).len() == l.sections[i].fields.len()
}

proof fn lemma_find_push(es: Seq<(Seq<char>, Node)>, x: (Seq<char>, Node), k: Seq<char>, m: int)
    requires
        0 <= m <= es.len(),
    ensures
        find_from(es.push(x), k, m) == match find_from(es, k, m) {
            Some(n) => Some(n),
            None => if x.0 == k {
                Some(x.1)
            } else {
                None
            },
        },
    decreases es.len() - m,
{
    if m < es.len() {
        assert(es.push(x)[m] == es[m]);
        lemma_find_push(es, x, k, m + 1);
    } else {
        assert(es.push(x)[m] == x);
        assert(find_from(es.push(x), k, m + 1) is None);
    }
}

proof fn lemma_present_find(
    l: LayoutModel,
    vs: Seq<Option<Seq<char>>>,
    i: int,
    n: int,
    j: int,
)
    requires
        lines_wf(l),
        tree_wf(l),
        0 <= i < l.sections.len(),
        vs.len() == l.sections[i].fields.len(),
        0 <= n <= vs.len(),
        0 <= j < vs.len(),
    ensures
        find_from(present(l.sections[i].fields, vs, n), key_of(native_at(l, i, j)), 0) == if j
            < n && vs[j] is Some {
            Some(Node::Str(vs[j]->0))
        } else {
            None
        },
        present(l.sections[i].fields, vs, n).len() == 0 ==> forall|m: int|
            0 <= m < n ==> (#[trigger] vs[m]) is None,
    decreases n,
{
    if n > 0 {
        let fs = l.sections[i].fields;
        let prev = present(fs, vs, n - 1);
        lemma_present_find(l, vs, i, n - 1, j);
        if let Some(v) = vs[n - 1] {
            let x = (key_of(fs[n - 1].native), Node::Str(v));
            lemma_find_push(prev, x, key_of(native_at(l, i, j)), 0);
            if n - 1 != j {
                assert(field_at(l, i, n - 1) && field_at(l, i, j));
                lemma_keys_distinct(l, i, n - 1, j);
            }
        }
    }
}

proof fn lemma_colors_find(l: LayoutModel, vss: Seq<Seq<Option<Seq<char>>>>, n: int, i: int)
    requires
        tree_wf(l),
        shaped(l, vss),
        forall|ii: int|
            0 <= ii < l.sections.len() ==> (#[trigger] l.sections[ii]).name is Some
                && l.sections[ii].fields.len() > 0,
        0 <= n <= l.sections.len(),
        0 <= i < l.sections.len(),
    ensures
        ({
            let es = present(l.sections[i].fields, vss[i], l.sections[i].fields.len() as int);
            find_from(colors_entries(l.sections, vss, n), l.sections[i].name->0, 0) == if i < n
                && es.len() > 0 {
                Some(Node::Table(es))
            } else {
                None
            }
        }),
    decreases n,
{
    if n > 0 {
        lemma_colors_find(l, vss, n - 1, i);
        let prev = colors_entries(l.sections, vss, n - 1);
        let s = l.sections[n - 1];
        let es = present(s.fields, vss[n - 1], s.fields.len() as int);
        if es.len() > 0 {
            lemma_find_push(prev, (s.name->0, Node::Table(es)), l.sections[i].name->0, 0);
        }
    }
}

/// A field reads back out of a tree holding values for some fields: its
/// value where there is one, else its default.
proof fn lemma_tree_reads_partial(l: LayoutModel, vss: Seq<Seq<Option<Seq<char>>>>, i: int, j: int)
    requires
        lines_wf(l),
        tree_wf(l),
        shaped(l, vss),
        field_at(l, i, j),
    ensures
        text_at(l, tree_of(l, vss), i, j) == match vss[i][j] {
            Some(v) => v,
            None => l.sections[i].fields[j].default,
        },
{
    let t = tree_of(l, vss);
    let s = l.sections[i];
    let n = l.sections.len() as int;
    let cs = colors_entries(l.sections, vss, n);
    let es = present(s.fields, vss[i], s.fields.len() as int);
    let k = key_of(native_at(l, i, j));
    lemma_present_find(l, vss[i], i, s.fields.len() as int, j);
    let root = seq![(l.app, Node::Table(if cs.len() == 0 { Seq::empty() } else { seq![(colors_key(), Node::Table(cs))] }))];
    lemma_find(root, l.app, 0, 0);
    if forall|ii: int|
        0 <= ii < l.sections.len() ==> (#[trigger] l.sections[ii]).name is Some
            && l.sections[ii].fields.len() > 0 {
        lemma_colors_find(l, vss, n, i);
        if cs.len() > 0 {
            lemma_find(seq![(colors_key(), Node::Table(cs))], colors_key(), 0, 0);
        } else {
            assert(find_from(cs, s.name->0, 0) is None);
        }
    } else {
        assert(n == 1 && i == 0);
        assert(l.sections[0].name is None);
        assert(colors_entries(l.sections, vss, 0) == Seq::<(Seq<char>, Node)>::empty());
        assert(cs == colors_entries(l.sections, vss, 0) + es);
        assert(cs =~= es);
        if cs.len() > 0 {
            lemma_find(seq![(colors_key(), Node::Table(cs))], colors_key(), 0, 0);
        }
    }
}

/// Every field's default is a value its syntax reads back unchanged.
pub open spec fn defaults_valid(l: LayoutModel) -> bool {
    forall|i: int, j: int|
        field_at(l, i, j) ==> valid_value(l.syntax, #[trigger] l.sections[i].fields[j].default)
}

/// The texts written for a tree that a parse yielded read back unchanged.
proof fn lemma_parsed_texts_valid(l: LayoutModel, x: Seq<char>)
    requires
        lines_wf(l),
        tree_wf(l),
        defaults_valid(l),
    ensures
        texts_valid(l, parsed(l, x)),
{
    let vss = parsed_values(l, x);
    assert(shaped(l, vss));
    if l.syntax != Syntax::DefineColor {
        lemma_units_no_newline(l.syntax, x);
    }
    assert forall|i: int, j: int| field_at(l, i, j) implies valid_value(
        l.syntax,
        #[trigger] text_at(l, parsed(l, x), i, j),
    ) by {
        lemma_tree_reads_partial(l, vss, i, j);
        lemma_last_value_valid(l.syntax, units_of(l.syntax, x), native_at(l, i, j));
        assert(valid_value(l.syntax, l.sections[i].fields[j].default));
    }
}

/// Starting from any text, two cycles of rendering and parsing give what one
/// gives.
pub proof fn law_fixed_point_of_text(l: LayoutModel, x: Seq<char>)
    requires
        lines_wf(l),
        tree_wf(l),
        defaults_valid(l),
    ensures
        ({
            let t = parsed(l, x);
            parsed(l, rendered(l, parsed(l, rendered(l, t)))) == parsed(l, rendered(l, t))
        }),
{
    lemma_parsed_texts_valid(l, x);
    law_fixed_point(l, parsed(l, x));
}

/// A default checked character by character is a value its syntax reads back
/// unchanged.
pub proof fn lemma_default_checked(s: Syntax, d: Seq<char>, c: Class)
    requires
        c == match s {
            Syntax::Bracketed => Class::NotQuote,
            Syntax::Macro => Class::NotParen,
            Syntax::DefineColor => Class::NotSemi,
            _ => Class::Hexish,
        },
        s != Syntax::TomlString,
        all_from(d, c, 0),
        free_from(d, 0),
        s != Syntax::Bracketed ==> d.len() > 0,
        s == Syntax::Macro ==> !in_class(d[0], Class::Space) && !in_class(d[d.len() - 1], Class::Space),
        s == Syntax::DefineColor ==> !in_class(d[0], Class::Blank) && !in_class(
            d[d.len() - 1],
            Class::Blank,
        ),
    ensures
        valid_value(s, d),
{
    lemma_all_from(d, c, 0);
    lemma_free_from(d, 0);
}

// ------------------------------------------------------- concrete tables

/// Every character of `x` from `i` on is in class `c`; unrolls on a literal.
pub open spec fn all_from(x: Seq<char>, c: Class, i: int) -> bool
    decreases x.len() - i,
{
    if i < 0 || i >= x.len() {
        true
    } else {
        in_class(x[i], c) && all_from(x, c, i + 1)
    }
}

/// The number whose base-128 digits, lowest first, are the characters of `k`
/// from `i` on: distinct keys of the tables have distinct codes.
pub open spec fn code_from(k: Seq<char>, i: int) -> int
    decreases k.len() - i,
{
    if i < 0 || i >= k.len() {
        0
    } else {
        (k[i] as u32) as int + 128 * code_from(k, i + 1)
    }
}

/// No character of `x` from `i` on is a line feed; unrolls on a literal.
pub open spec fn free_from(x: Seq<char>, i: int) -> bool
    decreases x.len() - i,
{
    if i < 0 || i >= x.len() {
        true
    } else {
        x[i] != '\n' && free_from(x, i + 1)
    }
}

proof fn lemma_all_from(x: Seq<char>, c: Class, i: int)
    requires
        0 <= i,
        all_from(x, c, i),
    ensures
        forall|m: int| i <= m < x.len() ==> in_class(#[trigger] x[m], c),
    decreases x.len() - i,
{
    if i < x.len() {
        lemma_all_from(x, c, i + 1);
    }
}

proof fn lemma_free_from(x: Seq<char>, i: int)
    requires
        0 <= i,
        free_from(x, i),
    ensures
        forall|m: int| i <= m < x.len() ==> #[trigger] x[m] != '\n',
    decreases x.len() - i,
{
    if i < x.len() {
        lemma_free_from(x, i + 1);
    }
}

/// A kebab-case key checked character by character is a valid key of the
/// name-keyed syntaxes.
pub proof fn lemma_kebab_key(x: Seq<char>)
    requires
        x.len() > 0,
        all_from(x, Class::Kebab, 0),
    ensures
        all_in(x, Class::Kebab),
        valid_key(Syntax::DefineColor, x),
        valid_key(Syntax::KeyValue, x),
{
    lemma_all_from(x, Class::Kebab, 0);
    assert forall|m: int| 0 <= m < x.len() implies in_class(#[trigger] x[m], Class::Name) by {
        assert(in_class(x[m], Class::Kebab));
    }
}

/// An identifier key checked character by character is a valid key of the
/// identifier-keyed syntaxes.
pub proof fn lemma_ident_key(x: Seq<char>)
    requires
        x.len() > 0,
        all_from(x, Class::Ident, 0),
    ensures
        all_in(x, Class::Ident),
        valid_key(Syntax::Bracketed, x),
        valid_key(Syntax::Macro, x),
{
    lemma_all_from(x, Class::Ident, 0);
}

/// A comment or a section line, one that starts with `#`, `/` or `[`,
/// states nothing.
pub proof fn lemma_comment_quiet(l: LayoutModel, x: Seq<char>)
    requires
        x.len() > 0,
        x[0] == '#' || x[0] == '/' || x[0] == '[',
        free_from(x, 0),
    ensures
        quiet(l, x),
{
    lemma_free_from(x, 0);
    assert(run_end(x, 0, Class::Space) == 0);
    if x.len() >= 6 {
        assert(x.subrange(0, 6)[0] == x[0]);
    }
    if x.len() >= 13 {
        assert(x.subrange(0, 13)[0] == x[0]);
    }
    assert(run_end(x, 0, Class::Name) == 0);
    assert(entry(l.syntax, x) is None);
}

/// A `key=...` line of a `key=value` table states key `k` alone, and so is
/// quiet where `k` is no field's key.
pub proof fn lemma_kv_quiet(l: LayoutModel, x: Seq<char>, k: Seq<char>, rest: Seq<char>)
    requires
        l.syntax == Syntax::KeyValue,
        x == k + rest,
        k.len() > 0,
        all_from(k, Class::Name, 0),
        rest.len() > 0,
        !in_class(rest[0], Class::Name),
        free_from(x, 0),
        forall|i: int, j: int| field_at(l, i, j) ==> k != native_at(l, i, j),
    ensures
        quiet(l, x),
{
    lemma_free_from(x, 0);
    lemma_all_from(k, Class::Name, 0);
    assert forall|m: int| 0 <= m < k.len() implies in_class(#[trigger] x[m], Class::Name) by {
        assert(x[m] == k[m]);
    }
    assert(x[k.len() as int] == rest[0]);
    lemma_run(x, 0, k.len() as int, Class::Name);
    assert(in_class(x[0], Class::Name));
    assert(run_end(x, 0, Class::Space) == 0);
    assert(x.subrange(0, k.len() as int) =~= k);
}

/// A continued block comment line, one that starts with ` *`, states nothing.
pub proof fn lemma_star_quiet(l: LayoutModel, x: Seq<char>)
    requires
        x.len() > 1,
        x[0] == ' ',
        x[1] == '*',
        free_from(x, 0),
    ensures
        quiet(l, x),
{
    lemma_free_from(x, 0);
    assert(run_end(x, 1, Class::Space) == 1);
    assert(run_end(x, 0, Class::Space) == 1);
    if x.len() >= 7 {
        assert(x.subrange(1, 7)[0] == x[1]);
    }
    if x.len() >= 14 {
        assert(x.subrange(1, 14)[0] == x[1]);
    }
    assert(run_end(x, 0, Class::Name) == 0);
    assert(run_end(x, 1, Class::Name) == 1);
    assert(entry(l.syntax, x) is None);
}

/// An empty line states nothing.
pub proof fn lemma_empty_quiet(l: LayoutModel)
    ensures
        quiet(l, Seq::<char>::empty()),
{
    assert(entry(l.syntax, Seq::<char>::empty()) is None);
}

// ---------------------------------------------------------- other laws

/// A tree without the codec's part is rendered with every field at its
/// default, the value that the codec's schema declares for it.
pub proof fn law_defaults(l: LayoutModel, t: Node, i: int, j: int)
    requires
        lookup(Some(t), l.app) is None,
        field_at(l, i, j),
    ensures
        text_at(l, t, i, j) == l.sections[i].fields[j].default,
{
}

/// A section's table in a tree holds the section's fields only: each of its
/// keys is the tree key of one of them, and each value is a string.
pub proof fn law_only_fields(fs: Seq<FieldModel>, vs: Seq<Option<Seq<char>>>, n: int)
    requires
        0 <= n <= fs.len(),
        n <= vs.len(),
    ensures
        forall|q: int|
            0 <= q < present(fs, vs, n).len() ==> exists|j: int|
                0 <= j < n && (#[trigger] present(fs, vs, n)[q]) == (
                    key_of(fs[j].native),
                    Node::Str(vs[j]->0),
                ),
    decreases n,
{
    if n > 0 {
        law_only_fields(fs, vs, n - 1);
        let prev = present(fs, vs, n - 1);
        assert forall|q: int| 0 <= q < present(fs, vs, n).len() implies exists|j: int|
            0 <= j < n && (#[trigger] present(fs, vs, n)[q]) == (
                key_of(fs[j].native),
                Node::Str(vs[j]->0),
            ) by {
            if q < prev.len() {
                assert(present(fs, vs, n)[q] == prev[q]);
                let j = choose|j: int|
                    0 <= j < n - 1 && (#[trigger] present(fs, vs, n - 1)[q]) == (
                        key_of(fs[j].native),
                        Node::Str(vs[j]->0),
                    );
                assert(0 <= j < n);
            } else {
                assert(present(fs, vs, n)[q] == (key_of(fs[n - 1].native), Node::Str(vs[n - 1]->0)));
            }
        }
    }
}

/// A line that states no field of the codec, put among the lines of a text,
/// leaves what the text parses to unchanged.
pub proof fn law_unrelated_line(
    l: LayoutModel,
    a: Seq<Seq<char>>,
    x: Seq<char>,
    b: Seq<Seq<char>>,
)
    requires
        forall|q: int| 0 <= q < a.len() ==> single(l.syntax, #[trigger] a[q]),
        forall|q: int| 0 <= q < b.len() ==> single(l.syntax, #[trigger] b[q]),
        quiet(l, x),
    ensures
        parsed(l, join(a + seq![x] + b)) == parsed(l, join(a + b)),
{
    let with = a + seq![x] + b;
    let without = a + b;
    assert forall|q: int| 0 <= q < with.len() implies single(l.syntax, #[trigger] with[q]) by {
        if q < a.len() {
            assert(with[q] == a[q]);
        } else if q > a.len() {
            assert(with[q] == b[q - a.len() - 1]);
        }
    }
    assert forall|q: int| 0 <= q < without.len() implies single(l.syntax, #[trigger] without[q]) by {
        if q >= a.len() {
            assert(without[q] == b[q - a.len()]);
        }
    }
    lemma_units_of_join(l.syntax, with);
    lemma_units_of_join(l.syntax, without);
    let pw = parsed_values(l, join(with));
    let po = parsed_values(l, join(without));
    assert forall|i: int| 0 <= i < l.sections.len() implies #[trigger] pw[i] =~= po[i] by {
        assert forall|j: int| 0 <= j < l.sections[i].fields.len() implies pw[i][j] == po[i][j] by {
            assert(field_at(l, i, j));
            let k = native_at(l, i, j);
            lemma_value_add(l.syntax, a + seq![x], b, k);
            lemma_value_add(l.syntax, a, seq![x], k);
            lemma_value_add(l.syntax, a, b, k);
            assert(seq![x][0] == x);
            lemma_last_value_quiet(l, seq![x], i, j);
        }
    }
    assert(pw =~= po);
}

} // verus!
