//! A line-based codec described as a table: the application, the line
//! syntax, the fields with their defaults grouped in sections, and the fixed
//! lines around them. Rendering and parsing are written once, over the table.

use vstd::prelude::*;
use crate::grammar::{entry, entry_exec, render_line, split_units, units_of, Syntax};
use crate::text::{chars_of, push_char, push_chars, push_str, string_of};
use crate::value::{entries_of, lookup, node_of, text_of, Node, ThemeValue};

verus! {

broadcast use vstd::std_specs::vec::group_vec_axioms;

/// A field: its key in the native file, the value it takes when the tree
/// has none, and how an editor presents it (a title, a description unless
/// empty, an output-encoding hint unless empty, whether it is a color).
pub struct Field {
    pub native: &'static str,
    pub default: &'static str,
    pub title: &'static str,
    pub about: &'static str,
    pub hint: &'static str,
    pub color: bool,
}

pub struct FieldModel {
    pub native: Seq<char>,
    pub default: Seq<char>,
    pub title: Seq<char>,
    pub about: Seq<char>,
    pub hint: Seq<char>,
    pub color: bool,
}

impl View for Field {
    type V = FieldModel;

    open spec fn view(&self) -> FieldModel {
        FieldModel {
            native: self.native@,
            default: self.default@,
            title: self.title@,
            about: self.about@,
            hint: self.hint@,
            color: self.color,
        }
    }
}

/// A group of fields. Under `name` they form a table of their own in the
/// tree; without one they stand directly in the `colors` table. `heading`
/// holds fixed lines written before them; `title`, unless empty, is shown
/// by an editor.
pub struct Section {
    pub name: Option<&'static str>,
    pub title: &'static str,
    pub heading: Vec<&'static str>,
    pub fields: Vec<Field>,
}

pub struct SectionModel {
    pub name: Option<Seq<char>>,
    pub title: Seq<char>,
    pub heading: Seq<Seq<char>>,
    pub fields: Seq<FieldModel>,
}

pub open spec fn opt_view(o: Option<&'static str>) -> Option<Seq<char>> {
    match o {
        Some(s) => Some(s@),
        None => None,
    }
}

impl View for Section {
    type V = SectionModel;

    open spec fn view(&self) -> SectionModel {
        SectionModel {
            name: opt_view(self.name),
            title: self.title@,
            heading: self.heading@.map_values(|h: &'static str| h@),
            fields: self.fields@.map_values(|f: Field| f@),
        }
    }
}

/// A whole codec: the tree is `{app: {colors: ...}}`.
pub struct Layout {
    pub app: &'static str,
    pub syntax: Syntax,
    pub header: Vec<&'static str>,
    pub sections: Vec<Section>,
    pub trailer: Vec<&'static str>,
}

pub struct LayoutModel {
    pub app: Seq<char>,
    pub syntax: Syntax,
    pub header: Seq<Seq<char>>,
    pub sections: Seq<SectionModel>,
    pub trailer: Seq<Seq<char>>,
}

impl View for Layout {
    type V = LayoutModel;

    open spec fn view(&self) -> LayoutModel {
        LayoutModel {
            app: self.app@,
            syntax: self.syntax,
            header: self.header@.map_values(|h: &'static str| h@),
            sections: self.sections@.map_values(|s: Section| s@),
            trailer: self.trailer@.map_values(|h: &'static str| h@),
        }
    }
}

pub open spec fn colors_key() -> Seq<char> {
    seq!['c', 'o', 'l', 'o', 'r', 's']
}

/// The tree key of a native key: each `-` becomes `_`.
pub open spec fn key_of(native: Seq<char>) -> Seq<char> {
    native.map_values(|c: char| if c == '-' { '_' } else { c })
}

// -------------------------------------------------------------- rendering

/// The lines `ls`, each ended by a line feed.
pub open spec fn join(ls: Seq<Seq<char>>) -> Seq<char>
    decreases ls.len(),
{
    if ls.len() == 0 {
        Seq::empty()
    } else {
        join(ls.drop_last()) + ls.last() + seq!['\n']
    }
}

pub proof fn lemma_join_push(ls: Seq<Seq<char>>, x: Seq<char>)
    ensures
        join(ls.push(x)) == join(ls) + x + seq!['\n'],
{
    assert(ls.push(x).drop_last() =~= ls);
}

/// The node of the tree that holds the fields of section `s`.
pub open spec fn section_node(l: LayoutModel, s: SectionModel, tree: Node) -> Option<Node> {
    let c = lookup(lookup(Some(tree), l.app), colors_key());
    match s.name {
        Some(n) => lookup(c, n),
        None => c,
    }
}

/// The value written for field `f`: the tree's string there, else the default.
pub open spec fn field_text(l: LayoutModel, s: SectionModel, f: FieldModel, tree: Node) -> Seq<
    char,
> {
    match text_of(lookup(section_node(l, s, tree), key_of(f.native))) {
        Some(t) => t,
        None => f.default,
    }
}

pub open spec fn heading_lines(s: SectionModel) -> Seq<Seq<char>> {
    s.heading
}

/// The lines of the first `n` fields of section `s`.
pub open spec fn field_lines(l: LayoutModel, s: SectionModel, tree: Node, n: int) -> Seq<
    Seq<char>,
> {
    s.fields.take(n).map_values(
        |f: FieldModel| render_line(l.syntax, f.native, field_text(l, s, f, tree)),
    )
}

pub open spec fn section_lines(l: LayoutModel, s: SectionModel, tree: Node) -> Seq<Seq<char>> {
    heading_lines(s) + field_lines(l, s, tree, s.fields.len() as int)
}

/// The lines of the first `n` sections.
pub open spec fn body_lines(l: LayoutModel, tree: Node, n: int) -> Seq<Seq<char>>
    decreases n,
{
    if n <= 0 {
        Seq::empty()
    } else {
        body_lines(l, tree, n - 1) + section_lines(l, l.sections[n - 1], tree)
    }
}

/// The lines of the text that rendering `tree` yields.
pub open spec fn rendered_lines(l: LayoutModel, tree: Node) -> Seq<Seq<char>> {
    l.header + body_lines(l, tree, l.sections.len() as int) + l.trailer
}

/// The text that rendering `tree` yields.
pub open spec fn rendered(l: LayoutModel, tree: Node) -> Seq<char> {
    join(rendered_lines(l, tree))
}

fn push_line(out: &mut String, line: &str, Ghost(acc): Ghost<Seq<Seq<char>>>)
    requires
        old(out)@ == join(acc),
    ensures
        final(out)@ == join(acc.push(line@)),
{
    push_str(out, line);
    push_char(out, '\n');
    assert(acc.push(line@).drop_last() =~= acc);
}

fn push_entry(
    out: &mut String,
    s: Syntax,
    k: &str,
    v: &str,
    Ghost(acc): Ghost<Seq<Seq<char>>>,
)
    requires
        old(out)@ == join(acc),
    ensures
        final(out)@ == join(acc.push(render_line(s, k@, v@))),
{
    match s {
        Syntax::Bracketed => {
            push_chars(out, &['t', 'h', 'e', 'm', 'e', '[']);
            push_str(out, k);
            push_chars(out, &[']', '=', '"']);
            push_str(out, v);
            push_char(out, '"');
        },
        Syntax::Macro => {
            push_char(out, '$');
            push_str(out, k);
            push_chars(out, &[' ', '=', ' ', 'r', 'g', 'b', 'a', '(']);
            push_str(out, v);
            push_char(out, ')');
        },
        Syntax::DefineColor => {
            push_chars(out, &['@', 'd', 'e', 'f', 'i', 'n', 'e', '-', 'c', 'o', 'l', 'o', 'r']);
            push_char(out, ' ');
            push_str(out, k);
            push_char(out, ' ');
            push_str(out, v);
            push_char(out, ';');
        },
        Syntax::KeyValue => {
            push_str(out, k);
            push_char(out, '=');
            push_str(out, v);
        },
        Syntax::TomlString => {
            push_str(out, k);
            push_chars(out, &[' ', '=', ' ', '"']);
            push_str(out, v);
            push_char(out, '"');
        },
    }
    push_char(out, '\n');
    assert(final(out)@ =~= join(acc) + render_line(s, k@, v@) + seq!['\n']);
    assert(acc.push(render_line(s, k@, v@)).drop_last() =~= acc);
}

/// The text written for field `f` of section `sec`.
fn field_text_exec<'a>(
    l: &Layout,
    sec: &Section,
    f: &'a Field,
    tree: &'a ThemeValue,
) -> (r: &'a str)
    ensures
        r@ == field_text(l@, sec@, f@, tree@),
{
    let key = key_string(f.native);
    let ck = string_of(&['c', 'o', 'l', 'o', 'r', 's']);
    assert(ck@ =~= colors_key());
    let app = match tree.get(l.app) {
        Some(a) => a,
        None => return f.default,
    };
    let colors = match app.get(ck.as_str()) {
        Some(c) => c,
        None => return f.default,
    };
    let node = match sec.name {
        Some(n) => match colors.get(n) {
            Some(x) => x,
            None => return f.default,
        },
        None => colors,
    };
    match node.get(key.as_str()) {
        Some(v) => match v.as_str() {
            Some(t) => t,
            None => f.default,
        },
        None => f.default,
    }
}

/// The text that rendering `tree` yields.
pub fn render(l: &Layout, tree: &ThemeValue) -> (r: String)
    ensures
        r@ == rendered(l@, tree@),
{
    let ghost lm = l@;
    let ghost t = tree@;
    let mut out = String::new();
    let ghost mut acc: Seq<Seq<char>> = Seq::empty();
    let mut i: usize = 0;
    while i < l.header.len()
        invariant
            lm == l@,
            i <= l.header@.len(),
            acc == lm.header.take(i as int),
            out@ == join(acc),
        decreases l.header@.len() - i,
    {
        push_line(&mut out, l.header[i], Ghost(acc));
        proof {
            acc = acc.push(l.header@[i as int]@);
            assert(acc =~= lm.header.take(i + 1));
        }
        i = i + 1;
    }
    assert(acc =~= lm.header + body_lines(lm, t, 0));
    let mut si: usize = 0;
    while si < l.sections.len()
        invariant
            lm == l@,
            t == tree@,
            si <= l.sections@.len(),
            acc == lm.header + body_lines(lm, t, si as int),
            out@ == join(acc),
        decreases l.sections@.len() - si,
    {
        let sec = &l.sections[si];
        let ghost sm = lm.sections[si as int];
        assert(sm == sec@);
        let ghost before = acc;
        let mut hi: usize = 0;
        while hi < sec.heading.len()
            invariant
                lm == l@,
                si < l.sections@.len(),
                sm == lm.sections[si as int],
                sm == sec@,
                hi <= sec.heading@.len(),
                acc == before + sm.heading.take(hi as int),
                out@ == join(acc),
            decreases sec.heading@.len() - hi,
        {
            push_line(&mut out, sec.heading[hi], Ghost(acc));
            proof {
                acc = acc.push(sec.heading@[hi as int]@);
                assert(acc =~= before + sm.heading.take(hi + 1));
            }
            hi = hi + 1;
        }
        assert(sm.heading.take(sm.heading.len() as int) =~= sm.heading);
        assert(acc =~= lm.header + body_lines(lm, t, si as int) + heading_lines(sm) + field_lines(
            lm,
            sm,
            t,
            0,
        ));
        let mut fi: usize = 0;
        while fi < sec.fields.len()
            invariant
                lm == l@,
                t == tree@,
                si < l.sections@.len(),
                sm == lm.sections[si as int],
                sm == sec@,
                fi <= sec.fields@.len(),
                acc == lm.header + body_lines(lm, t, si as int) + heading_lines(sm) + field_lines(
                    lm,
                    sm,
                    t,
                    fi as int,
                ),
                out@ == join(acc),
            decreases sec.fields@.len() - fi,
        {
            let f = &sec.fields[fi];
            assert(sm.fields[fi as int] == f@);
            let v = field_text_exec(l, sec, f, tree);
            push_entry(&mut out, l.syntax, f.native, v, Ghost(acc));
            proof {
                acc = acc.push(render_line(lm.syntax, f.native@, v@));
                assert(field_lines(lm, sm, t, fi + 1) =~= field_lines(lm, sm, t, fi as int).push(
                    render_line(lm.syntax, f.native@, v@),
                ));
            }
            fi = fi + 1;
        }
        assert(sm.fields.take(sm.fields.len() as int) =~= sm.fields);
        assert(acc =~= lm.header + body_lines(lm, t, si + 1));
        si = si + 1;
    }
    assert(acc =~= lm.header + body_lines(lm, t, lm.sections.len() as int) + lm.trailer.take(0));
    let mut j: usize = 0;
    while j < l.trailer.len()
        invariant
            lm == l@,
            t == tree@,
            j <= l.trailer@.len(),
            acc == lm.header + body_lines(lm, t, lm.sections.len() as int) + lm.trailer.take(
                j as int,
            ),
            out@ == join(acc),
        decreases l.trailer@.len() - j,
    {
        push_line(&mut out, l.trailer[j], Ghost(acc));
        proof {
            acc = acc.push(l.trailer@[j as int]@);
            assert(lm.trailer.take(j + 1) =~= lm.trailer.take(j as int).push(l.trailer@[j as int]@));
            assert(acc =~= lm.header + body_lines(lm, t, lm.sections.len() as int) + lm.trailer.take(
                j + 1,
            ));
        }
        j = j + 1;
    }
    assert(lm.trailer.take(lm.trailer.len() as int) =~= lm.trailer);
    out
}

// ---------------------------------------------------------------- parsing

/// The raw value of the last line of `ls` that states key `k`.
pub open spec fn last_value(s: Syntax, ls: Seq<Seq<char>>, k: Seq<char>) -> Option<Seq<char>>
    decreases ls.len(),
{
    if ls.len() == 0 {
        None
    } else {
        match entry(s, ls.last()) {
            Some(p) if p.0 == k => Some(p.1),
            _ => last_value(s, ls.drop_last(), k),
        }
    }
}

/// `k` is the native key of some field of `l`.
pub open spec fn is_field_key(l: LayoutModel, k: Seq<char>) -> bool {
    exists|i: int, j: int|
        0 <= i < l.sections.len() && 0 <= j < l.sections[i].fields.len()
            && #[trigger] l.sections[i].fields[j].native == k
}

/// The keys that units `us` state but no field of `l` reads, in order.
pub open spec fn stray_keys(l: LayoutModel, us: Seq<Seq<char>>) -> Seq<Seq<char>>
    decreases us.len(),
{
    if us.len() == 0 {
        Seq::empty()
    } else {
        let prev = stray_keys(l, us.drop_last());
        match entry(l.syntax, us.last()) {
            Some(p) => if is_field_key(l, p.0) {
                prev
            } else {
                prev.push(p.0)
            },
            None => prev,
        }
    }
}

/// The raw value of the first line of `ls` that states key `k`.
pub open spec fn first_value(s: Syntax, ls: Seq<Seq<char>>, k: Seq<char>) -> Option<Seq<char>>
    decreases ls.len(),
{
    if ls.len() == 0 {
        None
    } else {
        match entry(s, ls[0]) {
            Some(p) if p.0 == k => Some(p.1),
            _ => first_value(s, ls.drop_first(), k),
        }
    }
}

/// The value that units `ls` give key `k`: in `key=value` files the first
/// statement of the key counts, in the other syntaxes the last.
pub open spec fn value_in(s: Syntax, ls: Seq<Seq<char>>, k: Seq<char>) -> Option<Seq<char>> {
    if s == Syntax::KeyValue {
        first_value(s, ls, k)
    } else {
        last_value(s, ls, k)
    }
}

/// The entries for the first `n` fields of `fs` that have a value in `vs`.
pub open spec fn present(fs: Seq<FieldModel>, vs: Seq<Option<Seq<char>>>, n: int) -> Seq<
    (Seq<char>, Node),
>
    decreases n,
{
    if n <= 0 {
        Seq::empty()
    } else {
        let prev = present(fs, vs, n - 1);
        match vs[n - 1] {
            Some(v) => prev.push((key_of(fs[n - 1].native), Node::Str(v))),
            None => prev,
        }
    }
}

/// The entries of the `colors` table for the first `n` sections.
pub open spec fn colors_entries(
    secs: Seq<SectionModel>,
    vss: Seq<Seq<Option<Seq<char>>>>,
    n: int,
) -> Seq<(Seq<char>, Node)>
    decreases n,
{
    if n <= 0 {
        Seq::empty()
    } else {
        let prev = colors_entries(secs, vss, n - 1);
        let es = present(secs[n - 1].fields, vss[n - 1], secs[n - 1].fields.len() as int);
        match secs[n - 1].name {
            None => prev + es,
            Some(name) => if es.len() == 0 {
                prev
            } else {
                prev.push((name, Node::Table(es)))
            },
        }
    }
}

/// The tree that holds the values `vss` (one per field, by section): absent
/// values, and sections or a `colors` table left empty, do not appear.
pub open spec fn tree_of(l: LayoutModel, vss: Seq<Seq<Option<Seq<char>>>>) -> Node {
    let cs = colors_entries(l.sections, vss, l.sections.len() as int);
    Node::Table(
        seq![
            (
                l.app,
                Node::Table(
                    if cs.len() == 0 {
                        Seq::empty()
                    } else {
                        seq![(colors_key(), Node::Table(cs))]
                    },
                ),
            ),
        ],
    )
}

/// The value that text `t` gives each field.
pub open spec fn parsed_values(l: LayoutModel, t: Seq<char>) -> Seq<Seq<Option<Seq<char>>>> {
    l.sections.map_values(
        |s: SectionModel|
            s.fields.map_values(|f: FieldModel| value_in(l.syntax, units_of(l.syntax, t), f.native)),
    )
}

/// The tree that parsing text `t` yields.
pub open spec fn parsed(l: LayoutModel, t: Seq<char>) -> Node {
    tree_of(l, parsed_values(l, t))
}

pub proof fn lemma_entries_push(es: Seq<(String, ThemeValue)>, x: (String, ThemeValue))
    ensures
        entries_of(es.push(x)) == entries_of(es).push((x.0@, node_of(x.1))),
{
    assert(entries_of(es.push(x)) =~= entries_of(es).push((x.0@, node_of(x.1))));
}

pub proof fn lemma_entries_add(a: Seq<(String, ThemeValue)>, b: Seq<(String, ThemeValue)>)
    ensures
        entries_of(a + b) == entries_of(a) + entries_of(b),
{
    assert(entries_of(a + b) =~= entries_of(a) + entries_of(b));
}

pub(crate) fn key_string(native: &str) -> (r: String)
    ensures
        r@ == key_of(native@),
{
    let cs = chars_of(native);
    let mut out: Vec<char> = Vec::new();
    let mut i: usize = 0;
    while i < cs.len()
        invariant
            cs@ == native@,
            i <= cs@.len(),
            out@ == key_of(native@).take(i as int),
        decreases cs@.len() - i,
    {
        let c = if cs[i] == '-' {
            '_'
        } else {
            cs[i]
        };
        out.push(c);
        assert(key_of(native@).take(i + 1) =~= key_of(native@).take(i as int).push(c));
        i = i + 1;
    }
    assert(key_of(native@).take(cs@.len() as int) =~= key_of(native@));
    string_of(out.as_slice())
}

/// `a` and `b` hold the same characters.
fn same_chars(a: &Vec<char>, b: &Vec<char>) -> (r: bool)
    ensures
        r == (a@ == b@),
{
    if a.len() != b.len() {
        return false;
    }
    let mut i: usize = 0;
    while i < a.len()
        invariant
            a@.len() == b@.len(),
            i <= a@.len(),
            forall|j: int| 0 <= j < i ==> a@[j] == b@[j],
        decreases a@.len() - i,
    {
        if a[i] != b[i] {
            return false;
        }
        i = i + 1;
    }
    assert(a@ =~= b@);
    true
}

/// The value of the last entry in `ents` (the entries of the lines `ls`)
/// whose key is `k`.
pub(crate) fn find_last(
    ents: &Vec<Option<(Vec<char>, Vec<char>)>>,
    k: &Vec<char>,
    Ghost(s): Ghost<Syntax>,
    Ghost(ls): Ghost<Seq<Seq<char>>>,
) -> (r: Option<Vec<char>>)
    requires
        ents@.len() == ls.len(),
        forall|i: int|
            0 <= i < ls.len() ==> match #[trigger] ents@[i] {
                Some(p) => entry(s, ls[i]) == Some((p.0@, p.1@)),
                None => entry(s, ls[i]) is None,
            },
    ensures
        match r {
            Some(v) => last_value(s, ls, k@) == Some(v@),
            None => last_value(s, ls, k@) is None,
        },
{
    let mut i = ents.len();
    assert(ls.take(ls.len() as int) =~= ls);
    while i > 0
        invariant
            i <= ls.len(),
            ents@.len() == ls.len(),
            forall|j: int|
                0 <= j < ls.len() ==> match #[trigger] ents@[j] {
                    Some(p) => entry(s, ls[j]) == Some((p.0@, p.1@)),
                    None => entry(s, ls[j]) is None,
                },
            last_value(s, ls, k@) == last_value(s, ls.take(i as int), k@),
        decreases i,
    {
        let ghost pre = ls.take(i as int);
        assert(pre.drop_last() =~= ls.take(i - 1));
        assert(pre.last() == ls[i - 1]);
        match &ents[i - 1] {
            Some(p) => {
                if same_chars(&p.0, k) {
                    let v = crate::grammar::slice_of(&p.1, 0, p.1.len());
                    assert(p.1@.subrange(0, p.1@.len() as int) =~= p.1@);
                    return Some(v);
                }
            },
            None => {},
        }
        i = i - 1;
    }
    assert(ls.take(0) =~= Seq::<Seq<char>>::empty());
    None
}

/// The value of the first entry in `ents` (the entries of the units `ls`)
/// whose key is `k`.
fn find_first(
    ents: &Vec<Option<(Vec<char>, Vec<char>)>>,
    k: &Vec<char>,
    Ghost(s): Ghost<Syntax>,
    Ghost(ls): Ghost<Seq<Seq<char>>>,
) -> (r: Option<Vec<char>>)
    requires
        ents@.len() == ls.len(),
        forall|i: int|
            0 <= i < ls.len() ==> match #[trigger] ents@[i] {
                Some(p) => entry(s, ls[i]) == Some((p.0@, p.1@)),
                None => entry(s, ls[i]) is None,
            },
    ensures
        match r {
            Some(v) => first_value(s, ls, k@) == Some(v@),
            None => first_value(s, ls, k@) is None,
        },
{
    let mut i: usize = 0;
    assert(ls.skip(0) =~= ls);
    while i < ents.len()
        invariant
            i <= ls.len(),
            ents@.len() == ls.len(),
            forall|j: int|
                0 <= j < ls.len() ==> match #[trigger] ents@[j] {
                    Some(p) => entry(s, ls[j]) == Some((p.0@, p.1@)),
                    None => entry(s, ls[j]) is None,
                },
            first_value(s, ls, k@) == first_value(s, ls.skip(i as int), k@),
        decreases ls.len() - i,
    {
        let ghost rest = ls.skip(i as int);
        assert(rest.drop_first() =~= ls.skip(i + 1));
        assert(rest[0] == ls[i as int]);
        match &ents[i] {
            Some(p) => {
                if same_chars(&p.0, k) {
                    let v = crate::grammar::slice_of(&p.1, 0, p.1.len());
                    assert(p.1@.subrange(0, p.1@.len() as int) =~= p.1@);
                    return Some(v);
                }
            },
            None => {},
        }
        i = i + 1;
    }
    assert(ls.skip(ls.len() as int) =~= Seq::<Seq<char>>::empty());
    None
}

/// The entry that each line of `content` states in syntax `s`.
pub(crate) fn line_entries(s: Syntax, content: &str) -> (r: (
    Vec<Option<(Vec<char>, Vec<char>)>>,
    Ghost<Seq<Seq<char>>>,
))
    ensures
        r.1@ == units_of(s, content@),
        r.0@.len() == r.1@.len(),
        forall|j: int|
            0 <= j < r.1@.len() ==> match #[trigger] r.0@[j] {
                Some(p) => entry(s, r.1@[j]) == Some((p.0@, p.1@)),
                None => entry(s, r.1@[j]) is None,
            },
{
    let cs = chars_of(content);
    let lines = split_units(s, &cs);
    let ghost ls = units_of(s, content@);
    let mut ents: Vec<Option<(Vec<char>, Vec<char>)>> = Vec::new();
    let mut i: usize = 0;
    while i < lines.len()
        invariant
            cs@ == content@,
            ls == units_of(s, content@),
            lines@.len() == ls.len(),
            forall|j: int| 0 <= j < lines@.len() ==> #[trigger] lines@[j]@ == ls[j],
            i <= lines@.len(),
            ents@.len() == i,
            forall|j: int|
                0 <= j < i ==> match #[trigger] ents@[j] {
                    Some(p) => entry(s, ls[j]) == Some((p.0@, p.1@)),
                    None => entry(s, ls[j]) is None,
                },
        decreases lines@.len() - i,
    {
        let e = entry_exec(s, &lines[i]);
        ents.push(e);
        i = i + 1;
    }
    (ents, Ghost(ls))
}

fn is_field_key_exec(l: &Layout, k: &Vec<char>) -> (r: bool)
    ensures
        r == is_field_key(l@, k@),
{
    let mut si: usize = 0;
    while si < l.sections.len()
        invariant
            si <= l.sections@.len(),
            forall|i: int, j: int|
                0 <= i < si && 0 <= j < l@.sections[i].fields.len() ==> #[trigger] l@.sections[i].fields[j].native
                    != k@,
        decreases l.sections@.len() - si,
    {
        let sec = &l.sections[si];
        let mut fi: usize = 0;
        while fi < sec.fields.len()
            invariant
                si < l.sections@.len(),
                *sec == l.sections@[si as int],
                fi <= sec.fields@.len(),
                forall|i: int, j: int|
                    0 <= i < si && 0 <= j < l@.sections[i].fields.len() ==> #[trigger] l@.sections[i].fields[j].native
                        != k@,
                forall|j: int| 0 <= j < fi ==> #[trigger] l@.sections[si as int].fields[j].native != k@,
            decreases sec.fields@.len() - fi,
        {
            assert(l@.sections[si as int].fields[fi as int] == sec.fields@[fi as int]@);
            if same_chars(&chars_of(sec.fields[fi].native), k) {
                assert(l@.sections[si as int].fields[fi as int].native == k@);
                return true;
            }
            fi = fi + 1;
        }
        si = si + 1;
    }
    false
}

/// The keys that `content` states but no field of `l` reads, in order.
pub fn stray_keys_exec(l: &Layout, content: &str) -> (r: Vec<String>)
    ensures
        r@.map_values(|x: String| x@) == stray_keys(l@, units_of(l.syntax, content@)),
{
    let (ents, Ghost(ls)) = line_entries(l.syntax, content);
    let mut out: Vec<String> = Vec::new();
    let mut i: usize = 0;
    while i < ents.len()
        invariant
            ents@.len() == ls.len(),
            ls == units_of(l.syntax, content@),
            forall|j: int|
                0 <= j < ls.len() ==> match #[trigger] ents@[j] {
                    Some(p) => entry(l.syntax, ls[j]) == Some((p.0@, p.1@)),
                    None => entry(l.syntax, ls[j]) is None,
                },
            i <= ls.len(),
            out@.map_values(|x: String| x@) == stray_keys(l@, ls.take(i as int)),
        decreases ls.len() - i,
    {
        let ghost pre = ls.take(i + 1);
        assert(pre.drop_last() =~= ls.take(i as int));
        assert(pre.last() == ls[i as int]);
        match &ents[i] {
            Some(p) => {
                if !is_field_key_exec(l, &p.0) {
                    let k = string_of(p.0.as_slice());
                    out.push(k);
                    assert(out@.map_values(|x: String| x@) =~= stray_keys(l@, ls.take(i as int)).push(p.0@));
                }
            },
            None => {},
        }
        i = i + 1;
    }
    assert(ls.take(ls.len() as int) =~= ls);
    out
}

/// The tree that parsing `content` yields.
pub fn parse(l: &Layout, content: &str) -> (r: ThemeValue)
    ensures
        r@ == parsed(l@, content@),
{
    let (ents, Ghost(ls)) = line_entries(l.syntax, content);
    let ghost vss = parsed_values(l@, content@);
    let mut vals: Vec<Vec<Option<String>>> = Vec::new();
    let mut si: usize = 0;
    while si < l.sections.len()
        invariant
            vss == parsed_values(l@, content@),
            ls == units_of(l.syntax, content@),
            ents@.len() == ls.len(),
            forall|j: int|
                0 <= j < ls.len() ==> match #[trigger] ents@[j] {
                    Some(p) => entry(l.syntax, ls[j]) == Some((p.0@, p.1@)),
                    None => entry(l.syntax, ls[j]) is None,
                },
            si <= l.sections@.len(),
            vals@.len() == si,
            forall|j: int| 0 <= j < si ==> #[trigger] texts_view(vals@[j]@) == vss[j],
            forall|j: int|
                0 <= j < si ==> (#[trigger] vals@[j])@.len() == l.sections@[j].fields@.len(),
        decreases l.sections@.len() - si,
    {
        let sec = &l.sections[si];
        let mut vs: Vec<Option<String>> = Vec::new();
        let mut fi: usize = 0;
        while fi < sec.fields.len()
            invariant
                vss == parsed_values(l@, content@),
                ls == units_of(l.syntax, content@),
                ents@.len() == ls.len(),
                forall|j: int|
                    0 <= j < ls.len() ==> match #[trigger] ents@[j] {
                        Some(p) => entry(l.syntax, ls[j]) == Some((p.0@, p.1@)),
                        None => entry(l.syntax, ls[j]) is None,
                    },
                si < l.sections@.len(),
                *sec == l.sections@[si as int],
                fi <= sec.fields@.len(),
                vs@.len() == fi,
                forall|j: int| 0 <= j < fi ==> #[trigger] text_view(vs@[j]) == vss[si as int][j],
            decreases sec.fields@.len() - fi,
        {
            let f = &sec.fields[fi];
            assert(l@.sections[si as int].fields[fi as int] == f@);
            let native = chars_of(f.native);
            let found = if l.syntax == Syntax::KeyValue {
                find_first(&ents, &native, Ghost(l.syntax), Ghost(ls))
            } else {
                find_last(&ents, &native, Ghost(l.syntax), Ghost(ls))
            };
            match found {
                Some(v) => vs.push(Some(string_of(v.as_slice()))),
                None => vs.push(None),
            }
            fi = fi + 1;
        }
        assert(texts_view(vs@) =~= vss[si as int]);
        vals.push(vs);
        si = si + 1;
    }
    assert(vals_view(vals@) =~= vss);
    build_tree(l, &vals)
}

/// The value of a field, as text.
pub open spec fn text_view(o: Option<String>) -> Option<Seq<char>> {
    match o {
        Some(s) => Some(s@),
        None => None,
    }
}

pub open spec fn texts_view(vs: Seq<Option<String>>) -> Seq<Option<Seq<char>>> {
    vs.map_values(|o: Option<String>| text_view(o))
}

pub open spec fn vals_view(vss: Seq<Vec<Option<String>>>) -> Seq<Seq<Option<Seq<char>>>> {
    vss.map_values(|vs: Vec<Option<String>>| texts_view(vs@))
}

/// The tree that holds `vals`, one value per field, by section.
pub fn build_tree(l: &Layout, vals: &Vec<Vec<Option<String>>>) -> (r: ThemeValue)
    requires
        vals@.len() == l.sections@.len(),
        forall|i: int|
            0 <= i < vals@.len() ==> (#[trigger] vals@[i])@.len() == l.sections@[i].fields@.len(),
    ensures
        r@ == tree_of(l@, vals_view(vals@)),
{
    let ghost vss = vals_view(vals@);
    let ghost lm = l@;
    let mut colors: Vec<(String, ThemeValue)> = Vec::new();
    let mut si: usize = 0;
    while si < l.sections.len()
        invariant
            lm == l@,
            vss == vals_view(vals@),
            vals@.len() == l.sections@.len(),
            forall|i: int|
                0 <= i < vals@.len() ==> (#[trigger] vals@[i])@.len()
                    == l.sections@[i].fields@.len(),
            si <= l.sections@.len(),
            entries_of(colors@) == colors_entries(lm.sections, vss, si as int),
        decreases l.sections@.len() - si,
    {
        let sec = &l.sections[si];
        let ghost sm = lm.sections[si as int];
        assert(sm == sec@);
        let mut es: Vec<(String, ThemeValue)> = Vec::new();
        let mut fi: usize = 0;
        while fi < sec.fields.len()
            invariant
                lm == l@,
                vss == vals_view(vals@),
                vals@.len() == l.sections@.len(),
                vals@[si as int]@.len() == sec.fields@.len(),
                si < l.sections@.len(),
                sm == lm.sections[si as int],
                sm == sec@,
                fi <= sec.fields@.len(),
                entries_of(es@) == present(sm.fields, vss[si as int], fi as int),
            decreases sec.fields@.len() - fi,
        {
            let f = &sec.fields[fi];
            assert(sm.fields[fi as int] == f@);
            assert(vss[si as int][fi as int] == text_view(vals@[si as int]@[fi as int]));
            match &vals[si][fi] {
                Some(v) => {
                    let x = (key_string(f.native), ThemeValue::Str(v.clone()));
                    proof {
                        lemma_entries_push(es@, x);
                    }
                    es.push(x);
                },
                None => {},
            }
            fi = fi + 1;
        }
        match sec.name {
            None => {
                proof {
                    lemma_entries_add(colors@, es@);
                }
                colors.append(&mut es);
            },
            Some(n) => {
                if es.len() > 0 {
                    let x = (n.to_owned(), ThemeValue::Table(es));
                    proof {
                        lemma_entries_push(colors@, x);
                    }
                    colors.push(x);
                }
            },
        }
        si = si + 1;
    }
    let ghost cs = colors_entries(lm.sections, vss, lm.sections.len() as int);
    assert(entries_of(colors@) == cs);
    let mut app_entries: Vec<(String, ThemeValue)> = Vec::new();
    if colors.len() > 0 {
        let ck = string_of(&['c', 'o', 'l', 'o', 'r', 's']);
        assert(ck@ =~= colors_key());
        let x = (ck, ThemeValue::Table(colors));
        proof {
            lemma_entries_push(app_entries@, x);
            assert(node_of(x.1) == Node::Table(cs));
        }
        app_entries.push(x);
        assert(entries_of(app_entries@) =~= seq![(colors_key(), Node::Table(cs))]);
    } else {
        assert(entries_of(app_entries@) =~= Seq::<(Seq<char>, Node)>::empty());
    }
    let mut root: Vec<(String, ThemeValue)> = Vec::new();
    let x = (l.app.to_owned(), ThemeValue::Table(app_entries));
    proof {
        lemma_entries_push(root@, x);
    }
    root.push(x);
    assert(entries_of(root@) =~= seq![(lm.app, node_of(ThemeValue::Table(app_entries)))]);
    ThemeValue::Table(root)
}

} // verus!
