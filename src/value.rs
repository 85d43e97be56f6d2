//! The theme-data tree: string-keyed tables whose leaves are strings,
//! unsigned integers or booleans.

use vstd::prelude::*;

verus! {

broadcast use vstd::std_specs::vec::group_vec_axioms;

/// A node of a theme-data tree. Lists occur in schemas only; `Other` stands
/// for a leaf that no codec reads (a fraction, a negative number, a null).
#[derive(Debug, PartialEq)]
pub enum ThemeValue {
    Str(String),
    UInt(u64),
    Bool(bool),
    Table(Vec<(String, ThemeValue)>),
    List(Vec<ThemeValue>),
    Other,
}

/// The mathematical form of a `ThemeValue`.
pub enum Node {
    Str(Seq<char>),
    UInt(u64),
    Bool(bool),
    Table(Seq<(Seq<char>, Node)>),
    List(Seq<Node>),
    Other,
}

/// The entries of a table, as keys and nodes.
pub open spec fn entries_of(es: Seq<(String, ThemeValue)>) -> Seq<(Seq<char>, Node)>
    decreases es,
{
    Seq::new(
        es.len(),
        |i: int|
            if 0 <= i < es.len() {
                (es[i].0@, node_of(es[i].1))
            } else {
                (Seq::empty(), Node::Other)
            },
    )
}

/// The items of a list, as nodes.
pub open spec fn items_of(vs: Seq<ThemeValue>) -> Seq<Node>
    decreases vs,
{
    Seq::new(vs.len(), |i: int| if 0 <= i < vs.len() { node_of(vs[i]) } else { Node::Other })
}

pub open spec fn node_of(v: ThemeValue) -> Node
    decreases v,
{
    match v {
        ThemeValue::Str(s) => Node::Str(s@),
        ThemeValue::UInt(n) => Node::UInt(n),
        ThemeValue::Bool(b) => Node::Bool(b),
        ThemeValue::Table(es) => Node::Table(entries_of(es@)),
        ThemeValue::List(vs) => Node::List(items_of(vs@)),
        ThemeValue::Other => Node::Other,
    }
}

impl View for ThemeValue {
    type V = Node;

    open spec fn view(&self) -> Node {
        node_of(*self)
    }
}

/// The node under key `k` in the entries `es[i..]`: the first one that has it.
pub open spec fn find_from(es: Seq<(Seq<char>, Node)>, k: Seq<char>, i: int) -> Option<Node>
    decreases es.len() - i,
{
    if i < 0 || i >= es.len() {
        None
    } else if es[i].0 == k {
        Some(es[i].1)
    } else {
        find_from(es, k, i + 1)
    }
}

/// The node under key `k`, where `n` is a table that has it.
pub open spec fn lookup(n: Option<Node>, k: Seq<char>) -> Option<Node> {
    match n {
        Some(Node::Table(es)) => find_from(es, k, 0),
        _ => None,
    }
}

/// The text of a string leaf.
pub open spec fn text_of(n: Option<Node>) -> Option<Seq<char>> {
    match n {
        Some(Node::Str(s)) => Some(s),
        _ => None,
    }
}

/// The number of an unsigned-integer leaf.
pub open spec fn count_of(n: Option<Node>) -> Option<u64> {
    match n {
        Some(Node::UInt(x)) => Some(x),
        _ => None,
    }
}

/// `a` and `b` hold the same characters.
pub fn same_text(a: &str, b: &str) -> (r: bool)
    ensures
        r == (a@ == b@),
{
    let x = crate::text::chars_of(a);
    let y = crate::text::chars_of(b);
    if x.len() != y.len() {
        return false;
    }
    let mut i: usize = 0;
    while i < x.len()
        invariant
            x@ == a@,
            y@ == b@,
            x@.len() == y@.len(),
            i <= x@.len(),
            forall|j: int| 0 <= j < i ==> x@[j] == y@[j],
        decreases x@.len() - i,
    {
        if x[i] != y[i] {
            return false;
        }
        i = i + 1;
    }
    assert(x@ =~= y@);
    true
}

impl ThemeValue {
    /// The value under `key`, where `self` is a table that has it.
    pub fn get(&self, key: &str) -> (r: Option<&ThemeValue>)
        ensures
            match r {
                Some(x) => lookup(Some(self@), key@) == Some(x@),
                None => lookup(Some(self@), key@) is None,
            },
    {
        match self {
            ThemeValue::Table(es) => {
                let mut i: usize = 0;
                while i < es.len()
                    invariant
                        *self == ThemeValue::Table(*es),
                        i <= es@.len(),
                        find_from(entries_of(es@), key@, 0) == find_from(
                            entries_of(es@),
                            key@,
                            i as int,
                        ),
                    decreases es@.len() - i,
                {
                    if same_text(es[i].0.as_str(), key) {
                        return Some(&es[i].1);
                    }
                    i = i + 1;
                }
                None
            },
            _ => None,
        }
    }

    /// The text of a string leaf.
    pub fn as_str(&self) -> (r: Option<&str>)
        ensures
            match r {
                Some(s) => text_of(Some(self@)) == Some(s@),
                None => text_of(Some(self@)) is None,
            },
    {
        match self {
            ThemeValue::Str(s) => Some(s.as_str()),
            _ => None,
        }
    }

    /// The number of an unsigned-integer leaf.
    pub fn as_u64(&self) -> (r: Option<u64>)
        ensures
            r == count_of(Some(self@)),
    {
        match self {
            ThemeValue::UInt(n) => Some(*n),
            _ => None,
        }
    }
}

} // verus!
