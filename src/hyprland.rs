//! Hyprland: a `general { ... }` and a `decoration { ... }` block holding the
//! border colors, the border size, the gaps and the corner rounding.

use vstd::prelude::*;
use crate::grammar::{run_end, run_end_exec, slice_of, word_at, word_at_exec, Class};
use crate::layout::{join, lemma_entries_push, lemma_join_push, text_view, Field, FieldModel};
use crate::schema::{field_schema, field_schema_exec, object_exec, object_schema, push_entry, text};
use crate::text::{chars_of, push_char, push_str, string_of};
use crate::value::{count_of, entries_of, lookup, text_of, Node, ThemeValue};

verus! {

broadcast use vstd::std_specs::vec::group_vec_axioms;

// ------------------------------------------------------------------ grammar

/// The body of the first block `name { ... }` of `t` that starts at `i` or
/// later: white space, line feeds included, may come before `{`, and the
/// body ends at the first `}`.
pub open spec fn block_from(t: Seq<char>, name: Seq<char>, i: int) -> Option<Seq<char>>
    decreases t.len() - i,
{
    if i < 0 || i >= t.len() {
        None
    } else {
        let j = run_end(t, i + name.len(), Class::Blank);
        let k = run_end(t, j + 1, Class::NotBrace);
        if word_at(t, i, name) && j < t.len() && t[j] == '{' && k < t.len() {
            Some(t.subrange(j + 1, k))
        } else {
            block_from(t, name, i + 1)
        }
    }
}

pub open spec fn upper_hex(c: char) -> char {
    if c == 'a' {
        'A'
    } else if c == 'b' {
        'B'
    } else if c == 'c' {
        'C'
    } else if c == 'd' {
        'D'
    } else if c == 'e' {
        'E'
    } else if c == 'f' {
        'F'
    } else {
        c
    }
}

/// `s` with its hexadecimal letters in upper case.
pub open spec fn upper(s: Seq<char>) -> Seq<char> {
    s.map_values(|c: char| upper_hex(c))
}

/// `key = rgb(HHHHHH)` at `i` of `b`, a `#` allowed before the six digits
/// and white space around every token: the digits, in upper case.
pub open spec fn color_at(b: Seq<char>, i: int, key: Seq<char>) -> Option<Seq<char>> {
    let j = run_end(b, i + key.len(), Class::Blank);
    let k = run_end(b, j + 1, Class::Blank);
    let m = run_end(b, k + 4, Class::Blank);
    let h = if m < b.len() && b[m] == '#' {
        m + 1
    } else {
        m
    };
    let p = run_end(b, h + 6, Class::Blank);
    if word_at(b, i, key) && j < b.len() && b[j] == '=' && word_at(b, k, seq!['r', 'g', 'b', '('])
        && h + 6 <= b.len() && run_end(b, h, Class::HexDigit) >= h + 6 && p < b.len() && b[p]
        == ')' {
        Some(upper(b.subrange(h, h + 6)))
    } else {
        None
    }
}

/// The color of the first statement of `key` in `b` at `i` or later.
pub open spec fn first_color(b: Seq<char>, key: Seq<char>, i: int) -> Option<Seq<char>>
    decreases b.len() - i,
{
    if i < 0 || i >= b.len() {
        None
    } else {
        match color_at(b, i, key) {
            Some(v) => Some(v),
            None => first_color(b, key, i + 1),
        }
    }
}

/// `key = digits` at `i` of `b`: the digits.
pub open spec fn digits_at(b: Seq<char>, i: int, key: Seq<char>) -> Option<Seq<char>> {
    let j = run_end(b, i + key.len(), Class::Blank);
    let k = run_end(b, j + 1, Class::Blank);
    let d = run_end(b, k, Class::Digit);
    if word_at(b, i, key) && j < b.len() && b[j] == '=' && d > k {
        Some(b.subrange(k, d))
    } else {
        None
    }
}

/// The digits of the first statement of `key` in `b` at `i` or later.
pub open spec fn first_digits(b: Seq<char>, key: Seq<char>, i: int) -> Option<Seq<char>>
    decreases b.len() - i,
{
    if i < 0 || i >= b.len() {
        None
    } else {
        match digits_at(b, i, key) {
            Some(v) => Some(v),
            None => first_digits(b, key, i + 1),
        }
    }
}

/// The number that decimal digits `ds` write.
pub open spec fn digits_value(ds: Seq<char>) -> nat
    decreases ds.len(),
{
    if ds.len() == 0 {
        0
    } else {
        digits_value(ds.drop_last()) * 10 + ((ds.last() as u32 - 48) as nat)
    }
}

/// The number of the first statement of `key` in `b`, where it fits in `u64`.
pub open spec fn first_number(b: Seq<char>, key: Seq<char>) -> Option<u64> {
    match first_digits(b, key, 0) {
        Some(ds) => if digits_value(ds) <= u64::MAX {
            Some(digits_value(ds) as u64)
        } else {
            None
        },
        None => None,
    }
}

/// Putting hexadecimal letters in upper case a second time changes nothing.
pub proof fn law_upper_idempotent(s: Seq<char>)
    ensures
        upper(upper(s)) == upper(s),
{
    assert(upper(upper(s)) =~= upper(s));
}

proof fn lemma_first_color_upper(b: Seq<char>, key: Seq<char>, i: int)
    ensures
        first_color(b, key, i) matches Some(v) ==> upper(v) == v,
    decreases b.len() - i,
{
    if 0 <= i < b.len() {
        match color_at(b, i, key) {
            Some(v) => {
                law_upper_idempotent(v);
                let j = run_end(b, i + key.len(), Class::Blank);
                let k = run_end(b, j + 1, Class::Blank);
                let m = run_end(b, k + 4, Class::Blank);
                let h = if m < b.len() && b[m] == '#' {
                    m + 1
                } else {
                    m
                };
                law_upper_idempotent(b.subrange(h, h + 6));
            },
            None => lemma_first_color_upper(b, key, i + 1),
        }
    }
}

/// The decimal digits written for a number read back as that number.
pub proof fn law_decimal_reads_back(n: nat)
    ensures
        digits_value(decimal(n)) == n,
        forall|m: int| 0 <= m < decimal(n).len() ==> '0' <= #[trigger] decimal(n)[m] && decimal(n)[m] <= '9',
        decimal(n).len() > 0,
    decreases n,
{
    let d = n % 10;
    assert(digit_char(d as int) as u32 - 48 == d) by {
        assert(0 <= d < 10);
    }
    if n >= 10 {
        law_decimal_reads_back(n / 10);
        assert(decimal(n).drop_last() =~= decimal(n / 10));
        assert(decimal(n).last() == digit_char(d as int));
        assert((n / 10) * 10 + n % 10 == n) by (nonlinear_arith);
        assert(digits_value(decimal(n)) == digits_value(decimal(n).drop_last()) * 10 + ((
        decimal(n).last() as u32 - 48) as nat));
        assert(digits_value(decimal(n)) == (n / 10) * 10 + d);
        assert forall|m: int| 0 <= m < decimal(n).len() implies '0' <= #[trigger] decimal(n)[m]
            && decimal(n)[m] <= '9' by {
            if m < decimal(n / 10).len() {
                assert(decimal(n)[m] == decimal(n / 10)[m]);
            }
        }
    } else {
        assert(decimal(n).drop_last() =~= Seq::<char>::empty());
        assert(decimal(n).last() == digit_char(n as int));
        assert(digits_value(decimal(n)) == digits_value(decimal(n).drop_last()) * 10 + ((
        decimal(n).last() as u32 - 48) as nat));
    }
}

/// The border colors that a parse yields are in upper case: putting them in
/// upper case again changes nothing.
pub proof fn law_colors_upper(t: Seq<char>)
    ensures
        hyprland_values(t).active_border matches Some(v) ==> upper(v) == v,
        hyprland_values(t).inactive_border matches Some(v) ==> upper(v) == v,
{
    let g = block_from(t, "general"@, 0);
    if let Some(b) = g {
        lemma_first_color_upper(b, "col.active_border"@, 0);
        lemma_first_color_upper(b, "col.inactive_border"@, 0);
    }
}

// -------------------------------------------------------------------- model

/// What a Hyprland file states of each field.
pub struct HyprlandValues {
    pub active_border: Option<Seq<char>>,
    pub inactive_border: Option<Seq<char>>,
    pub border_size: Option<u64>,
    pub gaps_in: Option<u64>,
    pub gaps_out: Option<u64>,
    pub rounding: Option<u64>,
}

pub open spec fn color_in(block: Option<Seq<char>>, key: Seq<char>) -> Option<Seq<char>> {
    match block {
        Some(b) => first_color(b, key, 0),
        None => None,
    }
}

pub open spec fn number_in(block: Option<Seq<char>>, key: Seq<char>) -> Option<u64> {
    match block {
        Some(b) => first_number(b, key),
        None => None,
    }
}

/// What text `t` states: the first `general` and `decoration` blocks are read.
pub open spec fn hyprland_values(t: Seq<char>) -> HyprlandValues {
    let g = block_from(t, "general"@, 0);
    let d = block_from(t, "decoration"@, 0);
    HyprlandValues {
        active_border: color_in(g, "col.active_border"@),
        inactive_border: color_in(g, "col.inactive_border"@),
        border_size: number_in(g, "border_size"@),
        gaps_in: number_in(g, "gaps_in"@),
        gaps_out: number_in(g, "gaps_out"@),
        rounding: number_in(d, "rounding"@),
    }
}

pub open spec fn text_entry(k: Seq<char>, v: Option<Seq<char>>) -> Seq<(Seq<char>, Node)> {
    match v {
        Some(s) => seq![(k, Node::Str(s))],
        None => Seq::empty(),
    }
}

pub open spec fn count_entry(k: Seq<char>, v: Option<u64>) -> Seq<(Seq<char>, Node)> {
    match v {
        Some(n) => seq![(k, Node::UInt(n))],
        None => Seq::empty(),
    }
}

pub open spec fn table_entry(k: Seq<char>, es: Seq<(Seq<char>, Node)>) -> Seq<(Seq<char>, Node)> {
    if es.len() == 0 {
        Seq::empty()
    } else {
        seq![(k, Node::Table(es))]
    }
}

/// The tree holding `v`: absent values, and blocks left empty, do not appear.
pub open spec fn hyprland_tree(v: HyprlandValues) -> Node {
    let general = text_entry("active_border"@, v.active_border) + text_entry(
        "inactive_border"@,
        v.inactive_border,
    ) + count_entry("border_size"@, v.border_size) + count_entry("gaps_in"@, v.gaps_in)
        + count_entry("gaps_out"@, v.gaps_out);
    let decoration = count_entry("rounding"@, v.rounding);
    Node::Table(
        seq![
            (
                "hyprland"@,
                Node::Table(
                    table_entry("general"@, general) + table_entry("decoration"@, decoration),
                ),
            ),
        ],
    )
}

// ---------------------------------------------------------------- rendering

/// `s` without its leading `#` characters.
pub open spec fn strip_hashes(s: Seq<char>) -> Seq<char> {
    s.subrange(run_end(s, 0, Class::Hash), s.len() as int)
}

pub open spec fn digit_char(d: int) -> char {
    if d == 0 {
        '0'
    } else if d == 1 {
        '1'
    } else if d == 2 {
        '2'
    } else if d == 3 {
        '3'
    } else if d == 4 {
        '4'
    } else if d == 5 {
        '5'
    } else if d == 6 {
        '6'
    } else if d == 7 {
        '7'
    } else if d == 8 {
        '8'
    } else {
        '9'
    }
}

/// The decimal digits of `n`.
pub open spec fn decimal(n: nat) -> Seq<char>
    decreases n,
{
    if n < 10 {
        seq![digit_char(n as int)]
    } else {
        decimal(n / 10).push(digit_char((n % 10) as int))
    }
}

pub open spec fn text_or(n: Option<Node>, d: Seq<char>) -> Seq<char> {
    match text_of(n) {
        Some(s) => s,
        None => d,
    }
}

pub open spec fn count_or(n: Option<Node>, d: u64) -> u64 {
    match count_of(n) {
        Some(x) => x,
        None => d,
    }
}

/// The lines that rendering `tree` yields. A color is written without
/// leading `#`; a missing or mistyped field takes its default.
pub open spec fn hyprland_lines(tree: Node) -> Seq<Seq<char>> {
    let h = lookup(Some(tree), "hyprland"@);
    let g = lookup(h, "general"@);
    let d = lookup(h, "decoration"@);
    seq![
        "# ────────────────────────────────────────────────────────────"@,
        "# Omarchy Custom Theme for Hyprland"@,
        "# Generated with Omarchist"@,
        "# ────────────────────────────────────────────────────────────"@,
        ""@,
        "general {"@,
        "    col.active_border = rgb("@ + strip_hashes(text_or(lookup(g, "active_border"@), "8A8A8D"@))
            + ")"@,
        "    col.inactive_border = rgb("@ + strip_hashes(
            text_or(lookup(g, "inactive_border"@), "5C5C5E"@),
        ) + ")"@,
        "    border_size = "@ + decimal(count_or(lookup(g, "border_size"@), 1) as nat),
        "    gaps_in = "@ + decimal(count_or(lookup(g, "gaps_in"@), 5) as nat),
        "    gaps_out = "@ + decimal(count_or(lookup(g, "gaps_out"@), 20) as nat),
        "}"@,
        ""@,
        "decoration {"@,
        "    rounding = "@ + decimal(count_or(lookup(d, "rounding"@), 0) as nat),
        "}"@,
    ]
}

/// A tree without the `hyprland` part is rendered with every field at the
/// default its schema declares.
pub proof fn law_hyprland_defaults(tree: Node)
    requires
        lookup(Some(tree), "hyprland"@) is None,
    ensures
        hyprland_lines(tree) == hyprland_lines(Node::Table(Seq::empty())),
        hyprland_lines(tree)[6] == "    col.active_border = rgb("@ + strip_hashes("8A8A8D"@) + ")"@,
        hyprland_lines(tree)[10] == "    gaps_out = "@ + decimal(20),
{
}

// ------------------------------------------------------------------ parsing

fn block_exec(t: &Vec<char>, name: &Vec<char>) -> (r: Option<Vec<char>>)
    ensures
        match r {
            Some(b) => block_from(t@, name@, 0) == Some(b@),
            None => block_from(t@, name@, 0) is None,
        },
{
    let n = t.len();
    let mut i: usize = 0;
    while i < n
        invariant
            n == t@.len(),
            i <= n,
            block_from(t@, name@, 0) == block_from(t@, name@, i as int),
        decreases n - i,
    {
        if word_at_exec(t, i, name) {
            let j = run_end_exec(t, i + name.len(), Class::Blank);
            if j < n && t[j] == '{' {
                let k = run_end_exec(t, j + 1, Class::NotBrace);
                if k < n {
                    return Some(slice_of(t, j + 1, k));
                }
            }
        }
        i = i + 1;
    }
    None
}

fn upper_hex_exec(c: char) -> (r: char)
    ensures
        r == upper_hex(c),
{
    if c == 'a' {
        'A'
    } else if c == 'b' {
        'B'
    } else if c == 'c' {
        'C'
    } else if c == 'd' {
        'D'
    } else if c == 'e' {
        'E'
    } else if c == 'f' {
        'F'
    } else {
        c
    }
}

fn upper_exec(b: &Vec<char>, lo: usize, hi: usize) -> (r: Vec<char>)
    requires
        lo <= hi <= b@.len(),
    ensures
        r@ == upper(b@.subrange(lo as int, hi as int)),
{
    let mut out: Vec<char> = Vec::new();
    let mut i = lo;
    while i < hi
        invariant
            lo <= i <= hi <= b@.len(),
            out@ == upper(b@.subrange(lo as int, i as int)),
        decreases hi - i,
    {
        out.push(upper_hex_exec(b[i]));
        assert(upper(b@.subrange(lo as int, i + 1)) =~= upper(b@.subrange(lo as int, i as int)).push(
            upper_hex(b@[i as int]),
        ));
        i = i + 1;
    }
    out
}

fn first_color_exec(b: &Vec<char>, key: &Vec<char>) -> (r: Option<Vec<char>>)
    ensures
        match r {
            Some(v) => first_color(b@, key@, 0) == Some(v@),
            None => first_color(b@, key@, 0) is None,
        },
{
    let n = b.len();
    let rgb = vec!['r', 'g', 'b', '('];
    let mut i: usize = 0;
    while i < n
        invariant
            n == b@.len(),
            rgb@ == seq!['r', 'g', 'b', '('],
            i <= n,
            first_color(b@, key@, 0) == first_color(b@, key@, i as int),
        decreases n - i,
    {
        if word_at_exec(b, i, key) {
            let j = run_end_exec(b, i + key.len(), Class::Blank);
            if j < n && b[j] == '=' {
                let k = run_end_exec(b, j + 1, Class::Blank);
                if word_at_exec(b, k, &rgb) {
                    let m = run_end_exec(b, k + 4, Class::Blank);
                    let h = if m < n && b[m] == '#' {
                        m + 1
                    } else {
                        m
                    };
                    if h <= n && n - h >= 6 && run_end_exec(b, h, Class::HexDigit) >= h + 6 {
                        let p = run_end_exec(b, h + 6, Class::Blank);
                        if p < n && b[p] == ')' {
                            return Some(upper_exec(b, h, h + 6));
                        }
                    }
                }
            }
        }
        assert(color_at(b@, i as int, key@) is None);
        i = i + 1;
    }
    None
}

fn first_digits_exec(b: &Vec<char>, key: &Vec<char>) -> (r: Option<Vec<char>>)
    ensures
        match r {
            Some(v) => first_digits(b@, key@, 0) == Some(v@),
            None => first_digits(b@, key@, 0) is None,
        },
{
    let n = b.len();
    let mut i: usize = 0;
    while i < n
        invariant
            n == b@.len(),
            i <= n,
            first_digits(b@, key@, 0) == first_digits(b@, key@, i as int),
        decreases n - i,
    {
        if word_at_exec(b, i, key) {
            let j = run_end_exec(b, i + key.len(), Class::Blank);
            if j < n && b[j] == '=' {
                let k = run_end_exec(b, j + 1, Class::Blank);
                let d = run_end_exec(b, k, Class::Digit);
                if d > k {
                    return Some(slice_of(b, k, d));
                }
            }
        }
        i = i + 1;
    }
    None
}

proof fn lemma_digits_grow(ds: Seq<char>, i: int)
    requires
        0 <= i <= ds.len(),
    ensures
        digits_value(ds.take(i)) <= digits_value(ds),
    decreases ds.len() - i,
{
    if i < ds.len() {
        lemma_digits_grow(ds, i + 1);
        assert(ds.take(i + 1).drop_last() =~= ds.take(i));
    } else {
        assert(ds.take(i) =~= ds);
    }
}

/// The number that the digits `ds` write, where it fits in `u64`.
fn number_exec(ds: &Vec<char>) -> (r: Option<u64>)
    requires
        forall|i: int| 0 <= i < ds@.len() ==> '0' <= #[trigger] ds@[i] && ds@[i] <= '9',
    ensures
        r == (if digits_value(ds@) <= u64::MAX {
            Some(digits_value(ds@) as u64)
        } else {
            None
        }),
{
    let mut v: u64 = 0;
    let mut i: usize = 0;
    assert(ds@.take(0) =~= Seq::<char>::empty());
    while i < ds.len()
        invariant
            i <= ds@.len(),
            forall|j: int| 0 <= j < ds@.len() ==> '0' <= #[trigger] ds@[j] && ds@[j] <= '9',
            v == digits_value(ds@.take(i as int)),
        decreases ds@.len() - i,
    {
        let d = (ds[i] as u32 - 48) as u64;
        assert(ds@.take(i + 1).drop_last() =~= ds@.take(i as int));
        if v > 1844674407370955161 || (v == 1844674407370955161 && d > 5) {
            proof {
                lemma_digits_grow(ds@, i + 1);
            }
            return None;
        }
        v = v * 10 + d;
        i = i + 1;
    }
    assert(ds@.take(ds@.len() as int) =~= ds@);
    Some(v)
}

fn first_number_exec(b: &Vec<char>, key: &Vec<char>) -> (r: Option<u64>)
    ensures
        r == first_number(b@, key@),
{
    match first_digits_exec(b, key) {
        Some(ds) => {
            proof {
                let b0 = b@;
                let k0 = key@;
                assert(forall|i: int| 0 <= i < ds@.len() ==> '0' <= #[trigger] ds@[i] && ds@[i] <= '9') by {
                    lemma_first_digits_are_digits(b0, k0, 0);
                }
            }
            number_exec(&ds)
        },
        None => None,
    }
}

proof fn lemma_run_digits(b: Seq<char>, k: int, m: int)
    requires
        0 <= k <= m < run_end(b, k, Class::Digit),
    ensures
        '0' <= b[m] && b[m] <= '9',
    decreases m - k,
{
    if k < m {
        lemma_run_digits(b, k + 1, m);
    }
}

proof fn lemma_first_digits_are_digits(b: Seq<char>, key: Seq<char>, i: int)
    requires
        0 <= i,
    ensures
        first_digits(b, key, i) matches Some(ds) ==> forall|m: int|
            0 <= m < ds.len() ==> '0' <= #[trigger] ds[m] && ds[m] <= '9',
    decreases b.len() - i,
{
    if i < b.len() {
        match digits_at(b, i, key) {
            Some(ds) => {
                let j = run_end(b, i + key.len(), Class::Blank);
                let k = run_end(b, j + 1, Class::Blank);
                assert forall|m: int| 0 <= m < ds.len() implies '0' <= #[trigger] ds[m] && ds[m]
                    <= '9' by {
                    lemma_run_end_from(b, i + key.len(), Class::Blank);
                    lemma_run_end_from(b, j + 1, Class::Blank);
                    lemma_run_end_from(b, k, Class::Digit);
                    assert(ds[m] == b[k + m]);
                    lemma_run_digits(b, k, k + m);
                }
            },
            None => {
                lemma_first_digits_are_digits(b, key, i + 1);
            },
        }
    }
}

proof fn lemma_run_end_from(b: Seq<char>, i: int, c: Class)
    ensures
        i >= 0 ==> run_end(b, i, c) >= i,
        0 <= i <= b.len() ==> run_end(b, i, c) <= b.len(),
    decreases b.len() - i,
{
    if 0 <= i < b.len() {
        lemma_run_end_from(b, i + 1, c);
    }
}

fn key_chars(s: &str) -> (r: Vec<char>)
    ensures
        r@ == s@,
{
    chars_of(s)
}

/// What `content` states of each field.
fn values_exec(content: &str) -> (r: (
    Option<String>,
    Option<String>,
    Option<u64>,
    Option<u64>,
    Option<u64>,
    Option<u64>,
))
    ensures
        ({
            let v = hyprland_values(content@);
            &&& text_view(r.0) == v.active_border
            &&& text_view(r.1) == v.inactive_border
            &&& r.2 == v.border_size
            &&& r.3 == v.gaps_in
            &&& r.4 == v.gaps_out
            &&& r.5 == v.rounding
        }),
{
    let t = chars_of(content);
    let g = block_exec(&t, &key_chars("general"));
    let d = block_exec(&t, &key_chars("decoration"));
    let (a, b, c, e, f) = match &g {
        Some(body) => {
            let a = match first_color_exec(body, &key_chars("col.active_border")) {
                Some(x) => Some(string_of(x.as_slice())),
                None => None,
            };
            let b = match first_color_exec(body, &key_chars("col.inactive_border")) {
                Some(x) => Some(string_of(x.as_slice())),
                None => None,
            };
            (
                a,
                b,
                first_number_exec(body, &key_chars("border_size")),
                first_number_exec(body, &key_chars("gaps_in")),
                first_number_exec(body, &key_chars("gaps_out")),
            )
        },
        None => (None, None, None, None, None),
    };
    let r = match &d {
        Some(body) => first_number_exec(body, &key_chars("rounding")),
        None => None,
    };
    (a, b, c, e, f, r)
}

fn push_text(es: &mut Vec<(String, ThemeValue)>, k: &str, v: Option<String>)
    ensures
        entries_of(final(es)@) == entries_of(old(es)@) + text_entry(k@, text_view(v)),
{
    match v {
        Some(s) => {
            let x = (k.to_owned(), ThemeValue::Str(s));
            proof {
                lemma_entries_push(es@, x);
            }
            es.push(x);
            assert(entries_of(es@) =~= entries_of(old(es)@) + text_entry(k@, text_view(v)));
        },
        None => {
            assert(entries_of(es@) =~= entries_of(old(es)@) + text_entry(k@, text_view(v)));
        },
    }
}

fn push_count(es: &mut Vec<(String, ThemeValue)>, k: &str, v: Option<u64>)
    ensures
        entries_of(final(es)@) == entries_of(old(es)@) + count_entry(k@, v),
{
    match v {
        Some(n) => {
            let x = (k.to_owned(), ThemeValue::UInt(n));
            proof {
                lemma_entries_push(es@, x);
            }
            es.push(x);
            assert(entries_of(es@) =~= entries_of(old(es)@) + count_entry(k@, v));
        },
        None => {
            assert(entries_of(es@) =~= entries_of(old(es)@) + count_entry(k@, v));
        },
    }
}

fn push_table(es: &mut Vec<(String, ThemeValue)>, k: &str, inner: Vec<(String, ThemeValue)>)
    ensures
        entries_of(final(es)@) == entries_of(old(es)@) + table_entry(k@, entries_of(inner@)),
{
    if inner.len() > 0 {
        let ghost ie = entries_of(inner@);
        let x = (k.to_owned(), ThemeValue::Table(inner));
        proof {
            lemma_entries_push(es@, x);
        }
        es.push(x);
        assert(entries_of(es@) =~= entries_of(old(es)@) + table_entry(k@, ie));
    } else {
        assert(entries_of(es@) =~= entries_of(old(es)@) + table_entry(k@, entries_of(inner@)));
    }
}

// ---------------------------------------------------------------- rendering

fn digit_exec(d: u64) -> (r: char)
    requires
        d < 10,
    ensures
        r == digit_char(d as int),
{
    if d == 0 {
        '0'
    } else if d == 1 {
        '1'
    } else if d == 2 {
        '2'
    } else if d == 3 {
        '3'
    } else if d == 4 {
        '4'
    } else if d == 5 {
        '5'
    } else if d == 6 {
        '6'
    } else if d == 7 {
        '7'
    } else if d == 8 {
        '8'
    } else {
        '9'
    }
}

/// Appends the decimal digits of `n`.
pub fn push_decimal(out: &mut String, n: u64)
    ensures
        final(out)@ == old(out)@ + decimal(n as nat),
    decreases n,
{
    if n >= 10 {
        push_decimal(out, n / 10);
    }
    push_char(out, digit_exec(n % 10));
    assert(final(out)@ =~= old(out)@ + decimal(n as nat));
}

fn text_or_exec<'a>(n: Option<&'a ThemeValue>, d: &'a str) -> (r: &'a str)
    ensures
        r@ == text_or(
            match n {
                Some(v) => Some(v@),
                None => None,
            },
            d@,
        ),
{
    match n {
        Some(v) => match v.as_str() {
            Some(s) => s,
            None => d,
        },
        None => d,
    }
}

fn count_or_exec(n: Option<&ThemeValue>, d: u64) -> (r: u64)
    ensures
        r == count_or(
            match n {
                Some(v) => Some(v@),
                None => None,
            },
            d,
        ),
{
    match n {
        Some(v) => match v.as_u64() {
            Some(x) => x,
            None => d,
        },
        None => d,
    }
}

pub open spec fn node_opt(n: Option<&ThemeValue>) -> Option<Node> {
    match n {
        Some(v) => Some(v@),
        None => None,
    }
}

fn get_in<'a>(n: Option<&'a ThemeValue>, k: &str) -> (r: Option<&'a ThemeValue>)
    ensures
        node_opt(r) == lookup(node_opt(n), k@),
{
    match n {
        Some(v) => v.get(k),
        None => None,
    }
}

fn push_hashless(out: &mut String, s: &str)
    ensures
        final(out)@ == old(out)@ + strip_hashes(s@),
{
    let cs = chars_of(s);
    let k = run_end_exec(&cs, 0, Class::Hash);
    let rest = slice_of(&cs, k, cs.len());
    crate::text::push_chars(out, rest.as_slice());
}

// ------------------------------------------------------------------- schema

/// The description of a number field.
pub open spec fn number_schema(title: Seq<char>, about: Seq<char>, d: u64) -> Node {
    Node::Table(
        seq![
            ("type"@, Node::Str("number"@)),
            ("title"@, Node::Str(title)),
            ("default"@, Node::UInt(d)),
            ("description"@, Node::Str(about)),
        ],
    )
}

pub open spec fn border_field(title: Seq<char>, about: Seq<char>, d: Seq<char>) -> FieldModel {
    FieldModel {
        native: Seq::empty(),
        default: d,
        title: title,
        about: about,
        hint: "hex-no-hash"@,
        color: true,
    }
}

/// The schema of the Hyprland codec.
pub open spec fn hyprland_schema_of() -> Node {
    object_schema(
        Seq::empty(),
        seq![
            (
                "general"@,
                object_schema(
                    Seq::empty(),
                    seq![
                        (
                            "active_border"@,
                            field_schema(
                                border_field(
                                    "Active Border"@,
                                    "border color for the active window"@,
                                    "8A8A8D"@,
                                ),
                            ),
                        ),
                        (
                            "inactive_border"@,
                            field_schema(
                                border_field(
                                    "Inactive Border"@,
                                    "border color for inactive windows"@,
                                    "5C5C5E"@,
                                ),
                            ),
                        ),
                        (
                            "border_size"@,
                            number_schema("Border Size"@, "size of the border around windows"@, 1),
                        ),
                        ("gaps_in"@, number_schema("Gaps In"@, "gaps between windows"@, 5)),
                        (
                            "gaps_out"@,
                            number_schema(
                                "Gaps Out"@,
                                "gaps between windows and monitor edges"@,
                                20,
                            ),
                        ),
                    ],
                ),
            ),
            (
                "decoration"@,
                object_schema(
                    Seq::empty(),
                    seq![("rounding"@, number_schema("Rounding"@, "rounded corners' radius"@, 0))],
                ),
            ),
        ],
    )
}

fn number_schema_exec(title: &str, about: &str, d: u64) -> (r: ThemeValue)
    ensures
        r@ == number_schema(title@, about@, d),
{
    let mut es: Vec<(String, ThemeValue)> = Vec::new();
    push_entry(&mut es, "type", text("number"));
    push_entry(&mut es, "title", text(title));
    push_entry(&mut es, "default", ThemeValue::UInt(d));
    push_entry(&mut es, "description", text(about));
    assert(entries_of(es@) =~= seq![
        ("type"@, Node::Str("number"@)),
        ("title"@, Node::Str(title@)),
        ("default"@, Node::UInt(d)),
        ("description"@, Node::Str(about@)),
    ]);
    ThemeValue::Table(es)
}

fn border_exec(title: &'static str, about: &'static str, d: &'static str) -> (r: ThemeValue)
    ensures
        r@ == field_schema(border_field(title@, about@, d@)),
{
    let f = Field { native: "", default: d, title, about, hint: "hex-no-hash", color: true };
    assert(""@ =~= Seq::<char>::empty()) by {
        reveal_strlit("");
    }
    assert(f@ == border_field(title@, about@, d@));
    field_schema_exec(&f)
}

fn hyprland_schema() -> (r: ThemeValue)
    ensures
        r@ == hyprland_schema_of(),
{
    let mut general: Vec<(String, ThemeValue)> = Vec::new();
    push_entry(
        &mut general,
        "active_border",
        border_exec("Active Border", "border color for the active window", "8A8A8D"),
    );
    push_entry(
        &mut general,
        "inactive_border",
        border_exec("Inactive Border", "border color for inactive windows", "5C5C5E"),
    );
    push_entry(
        &mut general,
        "border_size",
        number_schema_exec("Border Size", "size of the border around windows", 1),
    );
    push_entry(&mut general, "gaps_in", number_schema_exec("Gaps In", "gaps between windows", 5));
    push_entry(
        &mut general,
        "gaps_out",
        number_schema_exec("Gaps Out", "gaps between windows and monitor edges", 20),
    );
    let ghost ge = entries_of(general@);
    let mut decoration: Vec<(String, ThemeValue)> = Vec::new();
    push_entry(&mut decoration, "rounding", number_schema_exec("Rounding", "rounded corners' radius", 0));
    let ghost de = entries_of(decoration@);
    assert(""@ =~= Seq::<char>::empty()) by {
        reveal_strlit("");
    }
    let gv = object_exec("", general);
    let dv = object_exec("", decoration);
    let mut top: Vec<(String, ThemeValue)> = Vec::new();
    push_entry(&mut top, "general", gv);
    push_entry(&mut top, "decoration", dv);
    assert(entries_of(top@) =~= seq![
        ("general"@, object_schema(Seq::empty(), ge)),
        ("decoration"@, object_schema(Seq::empty(), de)),
    ]);
    proof {
        assert(ge =~= seq![
            ("active_border"@, field_schema(border_field("Active Border"@, "border color for the active window"@, "8A8A8D"@))),
            ("inactive_border"@, field_schema(border_field("Inactive Border"@, "border color for inactive windows"@, "5C5C5E"@))),
            ("border_size"@, number_schema("Border Size"@, "size of the border around windows"@, 1)),
            ("gaps_in"@, number_schema("Gaps In"@, "gaps between windows"@, 5)),
            ("gaps_out"@, number_schema("Gaps Out"@, "gaps between windows and monitor edges"@, 20)),
        ]);
        assert(de =~= seq![("rounding"@, number_schema("Rounding"@, "rounded corners' radius"@, 0))]);
    }
    object_exec("", top)
}

/// The Hyprland codec.
pub struct HyprlandGenerator;

impl HyprlandGenerator {
    /// The key of this codec's part of the tree.
    pub fn get_app_name(&self) -> (r: &'static str)
        ensures
            r@ == "hyprland"@,
    {
        "hyprland"
    }

    /// The file the rendered text is meant for.
    pub fn get_file_name(&self) -> (r: &'static str)
        ensures
            r@ == "hyprland.conf"@,
    {
        "hyprland.conf"
    }

    /// The file text for `theme_data`.
    pub fn generate_config(&self, theme_data: &ThemeValue) -> (r: Result<String, String>)
        ensures
            r matches Ok(t) && t@ == join(hyprland_lines(theme_data@)),
    {
        let ghost tree = theme_data@;
        let h = theme_data.get("hyprland");
        let g = get_in(h, "general");
        let d = get_in(h, "decoration");
        let mut out = String::new();
        let ghost mut acc: Seq<Seq<char>> = Seq::empty();
        let ghost before = out@;
        push_str(&mut out, "# ────────────────────────────────────────────────────────────");
        push_char(&mut out, '\n');
        proof {
            let line = "# ────────────────────────────────────────────────────────────"@;
            assert(out@ =~= before + line + seq!['\n']);
            lemma_join_push(acc, line);
            acc = acc.push(line);
        }
        let ghost before = out@;
        push_str(&mut out, "# Omarchy Custom Theme for Hyprland");
        push_char(&mut out, '\n');
        proof {
            let line = "# Omarchy Custom Theme for Hyprland"@;
            assert(out@ =~= before + line + seq!['\n']);
            lemma_join_push(acc, line);
            acc = acc.push(line);
        }
        let ghost before = out@;
        push_str(&mut out, "# Generated with Omarchist");
        push_char(&mut out, '\n');
        proof {
            let line = "# Generated with Omarchist"@;
            assert(out@ =~= before + line + seq!['\n']);
            lemma_join_push(acc, line);
            acc = acc.push(line);
        }
        let ghost before = out@;
        push_str(&mut out, "# ────────────────────────────────────────────────────────────");
        push_char(&mut out, '\n');
        proof {
            let line = "# ────────────────────────────────────────────────────────────"@;
            assert(out@ =~= before + line + seq!['\n']);
            lemma_join_push(acc, line);
            acc = acc.push(line);
        }
        let ghost before = out@;
        push_str(&mut out, "");
        push_char(&mut out, '\n');
        proof {
            let line = ""@;
            assert(out@ =~= before + line + seq!['\n']);
            lemma_join_push(acc, line);
            acc = acc.push(line);
        }
        let ghost before = out@;
        push_str(&mut out, "general {");
        push_char(&mut out, '\n');
        proof {
            let line = "general {"@;
            assert(out@ =~= before + line + seq!['\n']);
            lemma_join_push(acc, line);
            acc = acc.push(line);
        }
        let ghost before = out@;
        push_str(&mut out, "    col.active_border = rgb(");
        push_hashless(&mut out, text_or_exec(get_in(g, "active_border"), "8A8A8D"));
        push_str(&mut out, ")");
        push_char(&mut out, '\n');
        proof {
            let line = "    col.active_border = rgb("@ + strip_hashes(text_or(lookup(lookup(lookup(Some(tree), "hyprland"@), "general"@), "active_border"@), "8A8A8D"@)) + ")"@;
            assert(out@ =~= before + line + seq!['\n']);
            lemma_join_push(acc, line);
            acc = acc.push(line);
        }
        let ghost before = out@;
        push_str(&mut out, "    col.inactive_border = rgb(");
        push_hashless(&mut out, text_or_exec(get_in(g, "inactive_border"), "5C5C5E"));
        push_str(&mut out, ")");
        push_char(&mut out, '\n');
        proof {
            let line = "    col.inactive_border = rgb("@ + strip_hashes(text_or(lookup(lookup(lookup(Some(tree), "hyprland"@), "general"@), "inactive_border"@), "5C5C5E"@)) + ")"@;
            assert(out@ =~= before + line + seq!['\n']);
            lemma_join_push(acc, line);
            acc = acc.push(line);
        }
        let ghost before = out@;
        push_str(&mut out, "    border_size = ");
        push_decimal(&mut out, count_or_exec(get_in(g, "border_size"), 1));
        push_char(&mut out, '\n');
        proof {
            let line = "    border_size = "@ + decimal(count_or(lookup(lookup(lookup(Some(tree), "hyprland"@), "general"@), "border_size"@), 1) as nat);
            assert(out@ =~= before + line + seq!['\n']);
            lemma_join_push(acc, line);
            acc = acc.push(line);
        }
        let ghost before = out@;
        push_str(&mut out, "    gaps_in = ");
        push_decimal(&mut out, count_or_exec(get_in(g, "gaps_in"), 5));
        push_char(&mut out, '\n');
        proof {
            let line = "    gaps_in = "@ + decimal(count_or(lookup(lookup(lookup(Some(tree), "hyprland"@), "general"@), "gaps_in"@), 5) as nat);
            assert(out@ =~= before + line + seq!['\n']);
            lemma_join_push(acc, line);
            acc = acc.push(line);
        }
        let ghost before = out@;
        push_str(&mut out, "    gaps_out = ");
        push_decimal(&mut out, count_or_exec(get_in(g, "gaps_out"), 20));
        push_char(&mut out, '\n');
        proof {
            let line = "    gaps_out = "@ + decimal(count_or(lookup(lookup(lookup(Some(tree), "hyprland"@), "general"@), "gaps_out"@), 20) as nat);
            assert(out@ =~= before + line + seq!['\n']);
            lemma_join_push(acc, line);
            acc = acc.push(line);
        }
        let ghost before = out@;
        push_str(&mut out, "}");
        push_char(&mut out, '\n');
        proof {
            let line = "}"@;
            assert(out@ =~= before + line + seq!['\n']);
            lemma_join_push(acc, line);
            acc = acc.push(line);
        }
        let ghost before = out@;
        push_str(&mut out, "");
        push_char(&mut out, '\n');
        proof {
            let line = ""@;
            assert(out@ =~= before + line + seq!['\n']);
            lemma_join_push(acc, line);
            acc = acc.push(line);
        }
        let ghost before = out@;
        push_str(&mut out, "decoration {");
        push_char(&mut out, '\n');
        proof {
            let line = "decoration {"@;
            assert(out@ =~= before + line + seq!['\n']);
            lemma_join_push(acc, line);
            acc = acc.push(line);
        }
        let ghost before = out@;
        push_str(&mut out, "    rounding = ");
        push_decimal(&mut out, count_or_exec(get_in(d, "rounding"), 0));
        push_char(&mut out, '\n');
        proof {
            let line = "    rounding = "@ + decimal(count_or(lookup(lookup(lookup(Some(tree), "hyprland"@), "decoration"@), "rounding"@), 0) as nat);
            assert(out@ =~= before + line + seq!['\n']);
            lemma_join_push(acc, line);
            acc = acc.push(line);
        }
        let ghost before = out@;
        push_str(&mut out, "}");
        push_char(&mut out, '\n');
        proof {
            let line = "}"@;
            assert(out@ =~= before + line + seq!['\n']);
            lemma_join_push(acc, line);
            acc = acc.push(line);
        }
        assert(acc =~= hyprland_lines(tree));
        Ok(out)
    }

    /// The schema of this codec's fields, for an editor.
    pub fn get_config_schema(&self) -> (r: ThemeValue)
        ensures
            r@ == hyprland_schema_of(),
    {
        hyprland_schema()
    }

    /// The tree of the fields that `content` states; the others are left out.
    pub fn parse_existing_config(&self, content: &str) -> (r: Result<ThemeValue, String>)
        ensures
            r matches Ok(v) && v@ == hyprland_tree(hyprland_values(content@)),
    {
        let (a, b, c, e, f, r) = values_exec(content);
        let mut general: Vec<(String, ThemeValue)> = Vec::new();
        push_text(&mut general, "active_border", a);
        push_text(&mut general, "inactive_border", b);
        push_count(&mut general, "border_size", c);
        push_count(&mut general, "gaps_in", e);
        push_count(&mut general, "gaps_out", f);
        let mut decoration: Vec<(String, ThemeValue)> = Vec::new();
        push_count(&mut decoration, "rounding", r);
        let mut h: Vec<(String, ThemeValue)> = Vec::new();
        push_table(&mut h, "general", general);
        push_table(&mut h, "decoration", decoration);
        let ghost he = entries_of(h@);
        let mut root: Vec<(String, ThemeValue)> = Vec::new();
        let x = ("hyprland".to_owned(), ThemeValue::Table(h));
        proof {
            lemma_entries_push(root@, x);
        }
        root.push(x);
        assert(entries_of(root@) =~= seq![("hyprland"@, Node::Table(he))]);
        Ok(ThemeValue::Table(root))
    }
}

} // verus!
