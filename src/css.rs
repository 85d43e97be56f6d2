//! The custom-property extractor shared by the style-sheet codecs.

use vstd::prelude::*;
use crate::grammar::Syntax;
use crate::layout::{find_last, key_of, key_string, last_value, lemma_entries_push, line_entries};
use crate::grammar::units_of;
use crate::text::{chars_of, string_of};
use crate::value::{entries_of, Node, ThemeValue};

verus! {

/// The entries for the first `n` names of `names` that `t` declares with
/// `@define-color`: the name with `-` turned into `_`, and the value of its
/// last declaration.
pub open spec fn declared(names: Seq<Seq<char>>, t: Seq<char>, n: int) -> Seq<(Seq<char>, Node)>
    decreases n,
{
    if n <= 0 {
        Seq::empty()
    } else {
        let prev = declared(names, t, n - 1);
        match last_value(Syntax::DefineColor, units_of(Syntax::DefineColor, t), names[n - 1]) {
            Some(v) => prev.push((key_of(names[n - 1]), Node::Str(v))),
            None => prev,
        }
    }
}

pub open spec fn names_view(names: Seq<&str>) -> Seq<Seq<char>> {
    names.map_values(|s: &str| s@)
}

/// The `@define-color` declarations of `content` whose names are among
/// `valid_css_keys`, in the order of that list; other names are ignored.
pub fn css_parser(content: &str, valid_css_keys: &[&str]) -> (r: Result<Vec<(String, ThemeValue)>, String>)
    ensures
        r matches Ok(es) && entries_of(es@) == declared(
            names_view(valid_css_keys@),
            content@,
            valid_css_keys@.len() as int,
        ),
{
    let (ents, Ghost(ls)) = line_entries(Syntax::DefineColor, content);
    let ghost names = names_view(valid_css_keys@);
    let mut out: Vec<(String, ThemeValue)> = Vec::new();
    let mut i: usize = 0;
    while i < valid_css_keys.len()
        invariant
            names == names_view(valid_css_keys@),
            ls == units_of(Syntax::DefineColor, content@),
            ents@.len() == ls.len(),
            forall|j: int|
                0 <= j < ls.len() ==> match #[trigger] ents@[j] {
                    Some(p) => crate::grammar::entry(Syntax::DefineColor, ls[j]) == Some(
                        (p.0@, p.1@),
                    ),
                    None => crate::grammar::entry(Syntax::DefineColor, ls[j]) is None,
                },
            i <= valid_css_keys@.len(),
            entries_of(out@) == declared(names, content@, i as int),
        decreases valid_css_keys@.len() - i,
    {
        let name = valid_css_keys[i];
        let cs = chars_of(name);
        match find_last(&ents, &cs, Ghost(Syntax::DefineColor), Ghost(ls)) {
            Some(v) => {
                let x = (key_string(name), ThemeValue::Str(string_of(v.as_slice())));
                proof {
                    lemma_entries_push(out@, x);
                }
                out.push(x);
            },
            None => {},
        }
        i = i + 1;
    }
    Ok(out)
}

} // verus!
