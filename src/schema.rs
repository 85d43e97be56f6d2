//! The editor schema of a codec: a tree mirroring the codec's part of the
//! theme data, each field described by its type, title, default and hints.

use vstd::prelude::*;
use crate::layout::{
    colors_key, key_of, lemma_entries_push, Field, FieldModel, Layout, LayoutModel, SectionModel,
};
use crate::text::string_of;
use crate::value::{entries_of, items_of, node_of, Node, ThemeValue};

verus! {

broadcast use vstd::std_specs::vec::group_vec_axioms;

pub open spec fn optional(cond: bool, e: (Seq<char>, Node)) -> Seq<(Seq<char>, Node)> {
    if cond {
        seq![e]
    } else {
        Seq::empty()
    }
}

/// The description of one field.
pub open spec fn field_schema(f: FieldModel) -> Node {
    Node::Table(
        seq![("type"@, Node::Str("string"@))] + optional(f.color, ("format"@, Node::Str("color"@)))
            + optional(f.hint.len() > 0, ("output_format"@, Node::Str(f.hint))) + seq![
            ("title"@, Node::Str(f.title)),
            ("default"@, Node::Str(f.default)),
        ] + optional(f.about.len() > 0, ("description"@, Node::Str(f.about))),
    )
}

/// The descriptions of fields `fs`, under their tree keys.
pub open spec fn field_entries(fs: Seq<FieldModel>) -> Seq<(Seq<char>, Node)> {
    fs.map_values(|f: FieldModel| (key_of(f.native), field_schema(f)))
}

/// The keys of `es`, in order: the ordering hint of a container.
pub open spec fn order_of(es: Seq<(Seq<char>, Node)>) -> Node {
    Node::List(es.map_values(|e: (Seq<char>, Node)| Node::Str(e.0)))
}

/// A container whose members are described by `es`.
pub open spec fn object_schema(title: Seq<char>, es: Seq<(Seq<char>, Node)>) -> Node {
    Node::Table(
        seq![("type"@, Node::Str("object"@))] + optional(title.len() > 0, ("title"@, Node::Str(title)))
            + seq![("x-order"@, order_of(es)), ("properties"@, Node::Table(es))],
    )
}

/// The members of the `colors` container for the first `n` sections.
pub open spec fn colors_schema(secs: Seq<SectionModel>, n: int) -> Seq<(Seq<char>, Node)>
    decreases n,
{
    if n <= 0 {
        Seq::empty()
    } else {
        colors_schema(secs, n - 1) + match secs[n - 1].name {
            None => field_entries(secs[n - 1].fields),
            Some(name) => seq![
                (name, object_schema(secs[n - 1].title, field_entries(secs[n - 1].fields))),
            ],
        }
    }
}

/// The schema of codec `l`.
pub open spec fn schema_of(l: LayoutModel) -> Node {
    object_schema(
        Seq::empty(),
        seq![
            (
                colors_key(),
                object_schema(Seq::empty(), colors_schema(l.sections, l.sections.len() as int)),
            ),
        ],
    )
}

fn is_empty(s: &str) -> (r: bool)
    ensures
        r == (s@.len() == 0),
{
    crate::text::chars_of(s).len() == 0
}

proof fn lemma_items_push(vs: Seq<ThemeValue>, x: ThemeValue)
    ensures
        items_of(vs.push(x)) == items_of(vs).push(node_of(x)),
{
    assert(items_of(vs.push(x)) =~= items_of(vs).push(node_of(x)));
}

pub(crate) fn text(s: &str) -> (r: ThemeValue)
    ensures
        r@ == Node::Str(s@),
{
    ThemeValue::Str(s.to_owned())
}

pub(crate) fn push_entry(v: &mut Vec<(String, ThemeValue)>, k: &str, x: ThemeValue)
    ensures
        entries_of(final(v)@) == entries_of(old(v)@).push((k@, node_of(x))),
{
    let e = (k.to_owned(), x);
    proof {
        lemma_entries_push(v@, e);
    }
    v.push(e);
}

pub(crate) fn field_schema_exec(f: &Field) -> (r: ThemeValue)
    ensures
        r@ == field_schema(f@),
{
    let mut es: Vec<(String, ThemeValue)> = Vec::new();
    push_entry(&mut es, "type", text("string"));
    let ghost a = entries_of(es@);
    if f.color {
        push_entry(&mut es, "format", text("color"));
    }
    assert(entries_of(es@) =~= a + optional(f.color, ("format"@, Node::Str("color"@))));
    let ghost b = entries_of(es@);
    if !is_empty(f.hint) {
        push_entry(&mut es, "output_format", text(f.hint));
    }
    assert(entries_of(es@) =~= b + optional(f.hint@.len() > 0, ("output_format"@, Node::Str(f.hint@))));
    push_entry(&mut es, "title", text(f.title));
    push_entry(&mut es, "default", text(f.default));
    let ghost c = entries_of(es@);
    if !is_empty(f.about) {
        push_entry(&mut es, "description", text(f.about));
    }
    assert(entries_of(es@) =~= c + optional(f.about@.len() > 0, ("description"@, Node::Str(f.about@))));
    assert(entries_of(es@) =~= seq![("type"@, Node::Str("string"@))] + optional(f.color, ("format"@, Node::Str("color"@)))
            + optional(f.hint@.len() > 0, ("output_format"@, Node::Str(f.hint@))) + seq![
            ("title"@, Node::Str(f.title@)),
            ("default"@, Node::Str(f.default@)),
        ] + optional(f.about@.len() > 0, ("description"@, Node::Str(f.about@))));
    ThemeValue::Table(es)
}

fn key_of_exec(native: &str) -> (r: String)
    ensures
        r@ == key_of(native@),
{
    crate::layout::key_string(native)
}

/// Appends the descriptions of fields `fs`.
fn push_fields(v: &mut Vec<(String, ThemeValue)>, fs: &Vec<Field>)
    ensures
        entries_of(final(v)@) == entries_of(old(v)@) + field_entries(
            fs@.map_values(|f: Field| f@),
        ),
{
    let ghost start = entries_of(v@);
    let ghost fm = fs@.map_values(|f: Field| f@);
    let mut i: usize = 0;
    while i < fs.len()
        invariant
            fm == fs@.map_values(|f: Field| f@),
            i <= fs@.len(),
            entries_of(v@) == start + field_entries(fm.take(i as int)),
        decreases fs@.len() - i,
    {
        let e = (key_of_exec(fs[i].native), field_schema_exec(&fs[i]));
        proof {
            lemma_entries_push(v@, e);
            assert(field_entries(fm.take(i + 1)) =~= field_entries(fm.take(i as int)).push(
                (key_of(fm[i as int].native), field_schema(fm[i as int])),
            ));
        }
        v.push(e);
        i = i + 1;
    }
    assert(fm.take(fs@.len() as int) =~= fm);
}

/// The ordering hint of the members `es`.
fn order_exec(es: &Vec<(String, ThemeValue)>) -> (r: ThemeValue)
    ensures
        r@ == order_of(entries_of(es@)),
{
    let mut items: Vec<ThemeValue> = Vec::new();
    let mut i: usize = 0;
    while i < es.len()
        invariant
            i <= es@.len(),
            items_of(items@) =~= entries_of(es@).take(i as int).map_values(
                |e: (Seq<char>, Node)| Node::Str(e.0),
            ),
        decreases es@.len() - i,
    {
        let k = string_of(crate::text::chars_of(es[i].0.as_str()).as_slice());
        let x = ThemeValue::Str(k);
        proof {
            lemma_items_push(items@, x);
        }
        items.push(x);
        assert(items_of(items@) =~= entries_of(es@).take(i + 1).map_values(
            |e: (Seq<char>, Node)| Node::Str(e.0),
        ));
        i = i + 1;
    }
    assert(entries_of(es@).take(es@.len() as int) =~= entries_of(es@));
    ThemeValue::List(items)
}

/// A container described by `title` and its members `es`.
pub(crate) fn object_exec(title: &str, es: Vec<(String, ThemeValue)>) -> (r: ThemeValue)
    ensures
        r@ == object_schema(title@, entries_of(es@)),
{
    let mut out: Vec<(String, ThemeValue)> = Vec::new();
    push_entry(&mut out, "type", text("object"));
    let ghost a = entries_of(out@);
    if !is_empty(title) {
        push_entry(&mut out, "title", text(title));
    }
    assert(entries_of(out@) =~= a + optional(title@.len() > 0, ("title"@, Node::Str(title@))));
    let ghost inner = entries_of(es@);
    let order = order_exec(&es);
    push_entry(&mut out, "x-order", order);
    push_entry(&mut out, "properties", ThemeValue::Table(es));
    assert(entries_of(out@) =~= seq![("type"@, Node::Str("object"@))] + optional(
        title@.len() > 0,
        ("title"@, Node::Str(title@)),
    ) + seq![("x-order"@, order_of(inner)), ("properties"@, Node::Table(inner))]);
    ThemeValue::Table(out)
}

/// The schema of codec `l`.
pub fn schema(l: &Layout) -> (r: ThemeValue)
    ensures
        r@ == schema_of(l@),
{
    let ghost lm = l@;
    let mut members: Vec<(String, ThemeValue)> = Vec::new();
    let mut si: usize = 0;
    while si < l.sections.len()
        invariant
            lm == l@,
            si <= l.sections@.len(),
            entries_of(members@) == colors_schema(lm.sections, si as int),
        decreases l.sections@.len() - si,
    {
        let sec = &l.sections[si];
        assert(lm.sections[si as int] == sec@);
        match sec.name {
            None => {
                push_fields(&mut members, &sec.fields);
            },
            Some(n) => {
                let mut es: Vec<(String, ThemeValue)> = Vec::new();
                push_fields(&mut es, &sec.fields);
                assert(entries_of(es@) =~= field_entries(sec@.fields));
                let x = object_exec(sec.title, es);
                push_entry(&mut members, n, x);
            },
        }
        assert(entries_of(members@) =~= colors_schema(lm.sections, si + 1));
        si = si + 1;
    }
    let colors = object_exec("", members);
    let mut top: Vec<(String, ThemeValue)> = Vec::new();
    let ck = string_of(&['c', 'o', 'l', 'o', 'r', 's']);
    assert(ck@ =~= colors_key());
    push_entry(&mut top, ck.as_str(), colors);
    assert(""@ =~= Seq::<char>::empty()) by {
        reveal_strlit("");
    }
    assert(entries_of(top@) =~= seq![(colors_key(), node_of(colors))]);
    object_exec("", top)
}

} // verus!
