//! Comma-separated lists of process names, as the settings window edits
//! them (`watched` / `excluded`).
//!
//! A list is stored as text such as `"a.exe, b.exe"`. Reading it splits on
//! `,`, trims whitespace from each piece and drops empty pieces; writing it
//! joins the items with `", "`.
use vstd::prelude::*;
use crate::text::{
    ascii_lower_seq, ascii_lower_spec, chars_of, eq_ignore_ascii_case, eq_ignore_ascii_case_spec,
    is_ascii_chars, is_trimmed, is_whitespace_spec, lemma_split_nonempty,
    lemma_split_pieces_lack_sep, lemma_trim_after_blank_prefix, lemma_trim_is_trimmed,
    lemma_trim_of_trimmed, trim_end_spec, trim_start_spec, join_spec, spec_to_lowercase,
    split_spec, string_from_chars, to_lowercase, trim_chars, trim_spec, join_strings,
};

verus! {

broadcast use vstd::string::group_string_axioms;

/// One piece of the split text as an item: trimmed, and lower-cased when
/// `lower` holds.
pub open spec fn item_of(piece: Seq<char>, lower: bool) -> Seq<char> {
    if lower {
        spec_to_lowercase(trim_spec(piece))
    } else {
        trim_spec(piece)
    }
}

/// The items of the pieces, in order, with empty items dropped.
pub open spec fn collect_items(pieces: Seq<Seq<char>>, lower: bool) -> Seq<Seq<char>>
    decreases pieces.len(),
{
    if pieces.len() == 0 {
        Seq::<Seq<char>>::empty()
    } else {
        let r = collect_items(pieces.drop_last(), lower);
        let t = item_of(pieces.last(), lower);
        if t.len() > 0 {
            r.push(t)
        } else {
            r
        }
    }
}

/// What `parse_csv` returns: the trimmed, lower-cased, non-empty pieces.
pub open spec fn parse_csv_spec(s: Seq<char>) -> Seq<Seq<char>> {
    collect_items(split_spec(s, ','), true)
}

/// The items of a list as the editing functions read it: the trimmed,
/// non-empty pieces, case kept.
pub open spec fn csv_items(s: Seq<char>) -> Seq<Seq<char>> {
    collect_items(split_spec(s, ','), false)
}

/// The separator written between items.
pub open spec fn csv_sep() -> Seq<char> {
    seq![',', ' ']
}

/// The text of a list of items.
pub open spec fn render_csv(items: Seq<Seq<char>>) -> Seq<char> {
    join_spec(items, csv_sep())
}

/// Whether `items` already holds `t`, ignoring ASCII case.
pub open spec fn contains_ignore_ascii_case(items: Seq<Seq<char>>, t: Seq<char>) -> bool {
    exists|i: int| 0 <= i < items.len() && eq_ignore_ascii_case_spec(#[trigger] items[i], t)
}

/// What `add_to_csv` returns.
pub open spec fn add_to_csv_spec(csv: Seq<char>, item: Seq<char>) -> Seq<char> {
    let items = csv_items(csv);
    let t = trim_spec(item);
    if t.len() > 0 && !contains_ignore_ascii_case(items, t) {
        render_csv(items.push(t))
    } else {
        render_csv(items)
    }
}

/// What `remove_from_csv` returns.
pub open spec fn remove_from_csv_spec(csv: Seq<char>, idx: int) -> Seq<char> {
    let items = csv_items(csv);
    if 0 <= idx < items.len() {
        render_csv(items.remove(idx))
    } else {
        render_csv(items)
    }
}

/// Every item is non-empty, trimmed and free of `,`: the shape of the
/// items that reading a list yields.
pub open spec fn is_item_list(items: Seq<Seq<char>>) -> bool {
    forall|i: int|
        0 <= i < items.len() ==> {
            &&& (#[trigger] items[i]).len() > 0
            &&& is_trimmed(items[i])
            &&& !items[i].contains(',')
        }
}

/// The items, each ASCII lower-cased: what reading ASCII text with
/// `parse_csv` yields.
pub open spec fn ascii_lower_items(items: Seq<Seq<char>>) -> Seq<Seq<char>> {
    items.map_values(|x: Seq<char>| ascii_lower_seq(x))
}

/// Appends `item` to `items` unless it is empty.
pub fn keep_item(items: &mut Vec<String>, item: String)
    ensures
        final(items).deep_view() == (if item@.len() > 0 {
            old(items).deep_view().push(item@)
        } else {
            old(items).deep_view()
        }),
{
    if !item.as_str().is_empty() {
        let ghost before = items.deep_view();
        let ghost v = item@;
        items.push(item);
        assert(items.deep_view() =~= before.push(v));
    }
}

fn finish_piece(items: &mut Vec<String>, piece: &Vec<char>, lower: bool)
    ensures
        final(items).deep_view() == (if item_of(piece@, lower).len() > 0 {
            old(items).deep_view().push(item_of(piece@, lower))
        } else {
            old(items).deep_view()
        }),
        lower && is_ascii_chars(piece@) ==> final(items).deep_view() == (if trim_spec(piece@).len()
            > 0 {
            old(items).deep_view().push(ascii_lower_seq(trim_spec(piece@)))
        } else {
            old(items).deep_view()
        }),
{
    let t = trim_chars(piece);
    let s = string_from_chars(&t);
    if lower {
        proof {
            if is_ascii_chars(piece@) {
                lemma_trim_ascii(piece@);
            }
        }
        let item = to_lowercase(s.as_str());
        keep_item(items, item);
    } else {
        keep_item(items, s);
    }
}

/// Splits `s` on `,` and returns the trimmed (and, when `lower`, lower-cased)
/// non-empty pieces in order.
pub(crate) fn split_items(s: &str, lower: bool) -> (r: Vec<String>)
    ensures
        r.deep_view() == collect_items(split_spec(s@, ','), lower),
        lower && is_ascii_chars(s@) ==> r.deep_view() == ascii_lower_items(
            collect_items(split_spec(s@, ','), false),
        ),
{
    let chars = chars_of(s);
    let n = chars.len();
    let mut items: Vec<String> = Vec::new();
    let mut cur: Vec<char> = Vec::new();
    let mut i: usize = 0;
    proof {
        assert(chars@.take(0) =~= Seq::<char>::empty());
        assert(items.deep_view() =~= Seq::<Seq<char>>::empty());
    }
    while i < n
        invariant
            n == chars@.len(),
            chars@ == s@,
            i <= n,
            split_spec(chars@.take(i as int), ',').len() >= 1,
            items.deep_view() == collect_items(
                split_spec(chars@.take(i as int), ',').drop_last(),
                lower,
            ),
            cur@ == split_spec(chars@.take(i as int), ',').last(),
            lower && is_ascii_chars(s@) ==> items.deep_view() == ascii_lower_items(
                collect_items(split_spec(chars@.take(i as int), ',').drop_last(), false),
            ),
            lower && is_ascii_chars(s@) ==> is_ascii_chars(cur@),
        decreases n - i,
    {
        let c = chars[i];
        let ghost p = split_spec(chars@.take(i as int), ',');
        proof {
            assert(chars@.take(i + 1).drop_last() =~= chars@.take(i as int));
            assert(chars@.take(i + 1).last() == c);
        }
        if c == ',' {
            proof {
                let q = split_spec(chars@.take(i + 1), ',');
                assert(q == p.push(Seq::<char>::empty()));
                assert(q.drop_last() =~= p);
                assert(p.drop_last() =~= p.drop_last());
            }
            let ghost before = items.deep_view();
            finish_piece(&mut items, &cur, lower);
            cur = Vec::new();
            proof {
                let q = split_spec(chars@.take(i + 1), ',');
                assert(cur@ =~= q.last());
                if lower && is_ascii_chars(s@) {
                    lemma_lower_items_step(p, before, items.deep_view());
                }
            }
        } else {
            let ghost old_cur_view = cur@;
            proof {
                let q = split_spec(chars@.take(i + 1), ',');
                assert(q == p.update(p.len() - 1, p.last().push(c)));
                assert(q.drop_last() =~= p.drop_last());
            }
            cur.push(c);
            proof {
                if lower && is_ascii_chars(s@) {
                    assert(c == s@[i as int]);
                    assert forall|k: int| 0 <= k < cur@.len() implies (#[trigger] cur@[k]) as u32
                        <= 0x7F by {
                        if k < cur@.len() - 1 {
                            assert(cur@[k] == old_cur_view[k]);
                        }
                    }
                }
            }
        }
        i = i + 1;
    }
    proof {
        assert(chars@.take(n as int) =~= chars@);
    }
    let ghost before = items.deep_view();
    finish_piece(&mut items, &cur, lower);
    proof {
        if lower && is_ascii_chars(s@) {
            lemma_lower_items_step(split_spec(s@, ','), before, items.deep_view());
        }
    }
    items
}

/// One more piece read: the lower-cased items follow the items.
proof fn lemma_lower_items_step(p: Seq<Seq<char>>, before: Seq<Seq<char>>, after: Seq<Seq<char>>)
    requires
        p.len() >= 1,
        before == ascii_lower_items(collect_items(p.drop_last(), false)),
        after == (if trim_spec(p.last()).len() > 0 {
            before.push(ascii_lower_seq(trim_spec(p.last())))
        } else {
            before
        }),
    ensures
        after == ascii_lower_items(collect_items(p, false)),
{
    let c0 = collect_items(p.drop_last(), false);
    if trim_spec(p.last()).len() > 0 {
        assert(ascii_lower_items(c0.push(trim_spec(p.last()))) =~= ascii_lower_items(c0).push(
            ascii_lower_seq(trim_spec(p.last())),
        ));
    }
}

/// Trimming ASCII text leaves ASCII text.
proof fn lemma_trim_ascii(s: Seq<char>)
    requires
        is_ascii_chars(s),
    ensures
        is_ascii_chars(trim_spec(s)),
{
    let ts = trim_start_spec(s);
    lemma_trim_start_is_suffix(s);
    lemma_trim_end_is_prefix(ts);
    assert forall|k: int| 0 <= k < trim_spec(s).len() implies (#[trigger] trim_spec(s)[k]) as u32
        <= 0x7F by {
        assert(trim_spec(s)[k] == ts[k]);
        assert(ts[k] == s[s.len() - ts.len() + k]);
    }
}

/// Splits a comma-separated string into items: each piece is trimmed and
/// lower-cased, and empty pieces are dropped.
pub fn parse_csv(s: &str) -> (r: Vec<String>)
    ensures
        r.deep_view() == parse_csv_spec(s@),
        is_ascii_chars(s@) ==> r.deep_view() == ascii_lower_items(csv_items(s@)),
{
    split_items(s, true)
}

fn contains_item_ignore_case(items: &Vec<String>, t: &Vec<char>) -> (r: bool)
    ensures
        r == contains_ignore_ascii_case(items.deep_view(), t@),
{
    let n = items.len();
    let mut i: usize = 0;
    while i < n
        invariant
            n == items@.len(),
            i <= n,
            forall|k: int|
                0 <= k < i ==> !eq_ignore_ascii_case_spec(#[trigger] items.deep_view()[k], t@),
        decreases n - i,
    {
        let cs = chars_of(items[i].as_str());
        if eq_ignore_ascii_case(&cs, t) {
            assert(items.deep_view()[i as int] == cs@);
            return true;
        }
        i = i + 1;
    }
    false
}

fn render(items: &Vec<String>) -> (r: String)
    ensures
        r@ == render_csv(items.deep_view()),
{
    proof {
        reveal_strlit(", ");
        assert(", "@ =~= csv_sep());
    }
    join_strings(items, ", ")
}

/// Adds an item to a comma-separated list: the item is trimmed, ignored
/// when empty or when the list already holds it (ignoring ASCII case), and
/// the list is written back with `", "` between items.
pub fn add_to_csv(csv: &str, item: &str) -> (r: String)
    ensures
        r@ == add_to_csv_spec(csv@, item@),
{
    let mut items = split_items(csv, false);
    let item_chars = chars_of(item);
    let trimmed = trim_chars(&item_chars);
    if trimmed.len() > 0 && !contains_item_ignore_case(&items, &trimmed) {
        let ghost before = items.deep_view();
        items.push(string_from_chars(&trimmed));
        assert(items.deep_view() =~= before.push(trimmed@));
    }
    render(&items)
}

/// Removes the item at position `idx` from a comma-separated list; an index
/// past the end removes nothing. The list is written back with `", "`
/// between items.
pub fn remove_from_csv(csv: &str, idx: usize) -> (r: String)
    ensures
        r@ == remove_from_csv_spec(csv@, idx as int),
{
    let mut items = split_items(csv, false);
    if idx < items.len() {
        let ghost before = items.deep_view();
        items.remove(idx);
        assert(items.deep_view() =~= before.remove(idx as int));
    }
    render(&items)
}

// ---------------------------------------------------------------------
// Laws
// ---------------------------------------------------------------------

proof fn lemma_split_without_sep(b: Seq<char>, sep: char)
    requires
        !b.contains(sep),
    ensures
        split_spec(b, sep) == seq![b],
    decreases b.len(),
{
    if b.len() > 0 {
        let b0 = b.drop_last();
        assert(!b0.contains(sep)) by {
            if b0.contains(sep) {
                let k = choose|k: int| 0 <= k < b0.len() && b0[k] == sep;
                assert(b[k] == sep);
            }
        }
        lemma_split_without_sep(b0, sep);
        assert(b.last() != sep) by {
            assert(b[b.len() - 1] == b.last());
        }
        assert(b0.push(b.last()) =~= b);
        assert(seq![b0].update(0, b0.push(b.last())) =~= seq![b]);
    } else {
        assert(b =~= Seq::<char>::empty());
    }
}

proof fn lemma_split_after_sep(a: Seq<char>, b: Seq<char>, sep: char)
    requires
        !b.contains(sep),
    ensures
        split_spec(a + seq![sep] + b, sep) == split_spec(a, sep).push(b),
    decreases b.len(),
{
    let s = a + seq![sep] + b;
    if b.len() == 0 {
        assert(s.drop_last() =~= a);
        assert(s.last() == sep);
        assert(b =~= Seq::<char>::empty());
    } else {
        let b0 = b.drop_last();
        assert(!b0.contains(sep)) by {
            if b0.contains(sep) {
                let k = choose|k: int| 0 <= k < b0.len() && b0[k] == sep;
                assert(b[k] == sep);
            }
        }
        lemma_split_after_sep(a, b0, sep);
        assert(s.drop_last() =~= a + seq![sep] + b0);
        assert(s.last() == b.last());
        assert(b.last() != sep) by {
            assert(b[b.len() - 1] == b.last());
        }
        let p = split_spec(a + seq![sep] + b0, sep);
        assert(p.last() == b0);
        assert(b0.push(b.last()) =~= b);
        assert(p.update(p.len() - 1, p.last().push(b.last())) =~= split_spec(a, sep).push(b));
    }
}

proof fn lemma_trim_start_is_suffix(s: Seq<char>)
    ensures
        trim_start_spec(s) =~= s.subrange(s.len() - trim_start_spec(s).len(), s.len() as int),
        trim_start_spec(s).len() <= s.len(),
    decreases s.len(),
{
    if s.len() > 0 && is_whitespace_spec(s[0]) {
        lemma_trim_start_is_suffix(s.drop_first());
    }
}

proof fn lemma_trim_end_is_prefix(s: Seq<char>)
    ensures
        trim_end_spec(s) =~= s.subrange(0, trim_end_spec(s).len() as int),
        trim_end_spec(s).len() <= s.len(),
    decreases s.len(),
{
    if s.len() > 0 && is_whitespace_spec(s.last()) {
        lemma_trim_end_is_prefix(s.drop_last());
    }
}

proof fn lemma_trim_keeps_absence(s: Seq<char>, c: char)
    requires
        !s.contains(c),
    ensures
        !trim_spec(s).contains(c),
{
    let ts = trim_start_spec(s);
    lemma_trim_start_is_suffix(s);
    lemma_trim_end_is_prefix(ts);
    if trim_spec(s).contains(c) {
        let k = choose|k: int| 0 <= k < trim_spec(s).len() && trim_spec(s)[k] == c;
        assert(ts[k] == c);
        assert(s[s.len() - ts.len() + k] == c);
    }
}

proof fn lemma_collect_shape(pieces: Seq<Seq<char>>)
    requires
        forall|i: int| 0 <= i < pieces.len() ==> !(#[trigger] pieces[i]).contains(','),
    ensures
        is_item_list(collect_items(pieces, false)),
    decreases pieces.len(),
{
    if pieces.len() > 0 {
        let p0 = pieces.drop_last();
        assert forall|i: int| 0 <= i < p0.len() implies !(#[trigger] p0[i]).contains(',') by {
            assert(p0[i] == pieces[i]);
        }
        lemma_collect_shape(p0);
        let last = pieces.last();
        assert(!last.contains(',')) by {
            assert(pieces[pieces.len() - 1] == last);
        }
        lemma_trim_keeps_absence(last, ',');
        lemma_trim_is_trimmed(last);
    }
}

/// Reading a list always yields non-empty, trimmed items without `,`.
pub proof fn law_csv_items_shape(csv: Seq<char>)
    ensures
        is_item_list(csv_items(csv)),
{
    let pieces = split_spec(csv, ',');
    lemma_split_pieces_lack_sep(csv, ',');
    assert forall|i: int| 0 <= i < pieces.len() implies !(#[trigger] pieces[i]).contains(',') by {
        if pieces[i].contains(',') {
            let k = choose|k: int| 0 <= k < pieces[i].len() && pieces[i][k] == ',';
            assert(split_spec(csv, ',')[i][k] != ',');
        }
    }
    lemma_collect_shape(pieces);
}

/// Writing a list of items and reading it back gives the same items, for
/// every list whose items are non-empty, trimmed and free of `,`.
pub proof fn law_csv_roundtrip(items: Seq<Seq<char>>)
    requires
        is_item_list(items),
    ensures
        csv_items(render_csv(items)) == items,
    decreases items.len(),
{
    if items.len() == 0 {
        assert(split_spec(Seq::<char>::empty(), ',') =~= seq![Seq::<char>::empty()]);
        assert(seq![Seq::<char>::empty()].drop_last() =~= Seq::<Seq<char>>::empty());
        assert(trim_spec(Seq::<char>::empty()) =~= Seq::<char>::empty());
        assert(collect_items(Seq::<Seq<char>>::empty(), false) =~= items);
        assert(render_csv(items) =~= Seq::<char>::empty());
        assert(csv_items(render_csv(items)) == collect_items(seq![Seq::<char>::empty()], false));
        assert(csv_items(render_csv(items)) == items);
    } else if items.len() == 1 {
        let x = items[0];
        assert(x.len() > 0 && is_trimmed(x) && !x.contains(','));
        assert(render_csv(items) == x);
        assert(seq![x].last() == x);
        lemma_split_without_sep(x, ',');
        lemma_trim_of_trimmed(x);
        assert(seq![x].drop_last() =~= Seq::<Seq<char>>::empty());
        assert(Seq::<Seq<char>>::empty().push(x) =~= items);
        assert(csv_items(render_csv(items)) == collect_items(seq![x], false));
        assert(collect_items(Seq::<Seq<char>>::empty(), false) == Seq::<Seq<char>>::empty());
        assert(item_of(x, false) == x);
        assert(collect_items(seq![x], false) == collect_items(Seq::<Seq<char>>::empty(), false).push(x));
        assert(csv_items(render_csv(items)) == items);
    } else {
        let init = items.drop_last();
        let last = items.last();
        assert(is_item_list(init)) by {
            assert forall|i: int| 0 <= i < init.len() implies {
                &&& (#[trigger] init[i]).len() > 0
                &&& is_trimmed(init[i])
                &&& !init[i].contains(',')
            } by {
                assert(init[i] == items[i]);
            }
        }
        assert(last.len() > 0 && is_trimmed(last) && !last.contains(',')) by {
            assert(items[items.len() - 1] == last);
        }
        law_csv_roundtrip(init);
        let head = render_csv(init);
        let tail = seq![' '] + last;
        assert(render_csv(items) =~= head + seq![','] + tail);
        assert(!tail.contains(',')) by {
            if tail.contains(',') {
                let k = choose|k: int| 0 <= k < tail.len() && tail[k] == ',';
                assert(last[k - 1] == ',');
            }
        }
        lemma_split_after_sep(head, tail, ',');
        let pieces = split_spec(head, ',').push(tail);
        assert(pieces.drop_last() =~= split_spec(head, ','));
        assert(is_whitespace_spec(seq![' '][0]));
        lemma_trim_after_blank_prefix(seq![' '], last);
        assert(init.push(last) =~= items);
        assert(trim_spec(tail) == last);
        assert(csv_items(head) == init);
        assert(csv_items(render_csv(items)) == collect_items(pieces, false));
        assert(collect_items(pieces, false) == csv_items(head).push(last));
    }
}

proof fn lemma_ascii_lower_char(c: char)
    requires
        c as u32 <= 0x7F,
    ensures
        ascii_lower_spec(c) as u32 <= 0x7F,
        ascii_lower_spec(ascii_lower_spec(c)) == ascii_lower_spec(c),
        is_whitespace_spec(ascii_lower_spec(c)) == is_whitespace_spec(c),
        (ascii_lower_spec(c) == ',') == (c == ','),
{
    if 'A' <= c <= 'Z' {
        let d = ascii_lower_spec(c);
        assert(d as u32 == c as u32 + 32);
        assert('a' <= d <= 'z');
    }
}

proof fn lemma_split_pieces_ascii(s: Seq<char>, sep: char)
    requires
        is_ascii_chars(s),
    ensures
        forall|i: int|
            0 <= i < split_spec(s, sep).len() ==> is_ascii_chars(#[trigger] split_spec(s, sep)[i]),
    decreases s.len(),
{
    if s.len() > 0 {
        let s0 = s.drop_last();
        assert(is_ascii_chars(s0)) by {
            assert forall|k: int| 0 <= k < s0.len() implies (#[trigger] s0[k]) as u32 <= 0x7F by {
                assert(s0[k] == s[k]);
            }
        }
        lemma_split_pieces_ascii(s0, sep);
        lemma_split_nonempty(s0, sep);
        let p = split_spec(s0, sep);
        assert(is_ascii_chars(Seq::<char>::empty()));
        if s.last() != sep {
            let q = p.last().push(s.last());
            assert(is_ascii_chars(q)) by {
                assert(p[p.len() - 1] == p.last());
                assert forall|k: int| 0 <= k < q.len() implies (#[trigger] q[k]) as u32 <= 0x7F by {
                    if k < p.last().len() {
                        assert(q[k] == p.last()[k]);
                    } else {
                        assert(q[k] == s[s.len() - 1]);
                    }
                }
            }
            let r = p.update(p.len() - 1, q);
            assert forall|i: int| 0 <= i < r.len() implies is_ascii_chars(#[trigger] r[i]) by {
                if i < p.len() - 1 {
                    assert(r[i] == p[i]);
                }
            }
        } else {
            let r = p.push(Seq::<char>::empty());
            assert forall|i: int| 0 <= i < r.len() implies is_ascii_chars(#[trigger] r[i]) by {
                if i < p.len() {
                    assert(r[i] == p[i]);
                }
            }
        }
    }
}

proof fn lemma_collect_ascii(pieces: Seq<Seq<char>>)
    requires
        forall|i: int| 0 <= i < pieces.len() ==> is_ascii_chars(#[trigger] pieces[i]),
    ensures
        forall|i: int|
            0 <= i < collect_items(pieces, false).len() ==> is_ascii_chars(
                #[trigger] collect_items(pieces, false)[i],
            ),
    decreases pieces.len(),
{
    if pieces.len() > 0 {
        let p0 = pieces.drop_last();
        assert forall|i: int| 0 <= i < p0.len() implies is_ascii_chars(#[trigger] p0[i]) by {
            assert(p0[i] == pieces[i]);
        }
        lemma_collect_ascii(p0);
        assert(pieces[pieces.len() - 1] == pieces.last());
        lemma_trim_ascii(pieces.last());
        let c0 = collect_items(p0, false);
        let c = collect_items(pieces, false);
        assert forall|i: int| 0 <= i < c.len() implies is_ascii_chars(#[trigger] c[i]) by {
            if i < c0.len() {
                assert(c[i] == c0[i]);
            }
        }
    }
}

proof fn lemma_join_ascii(items: Seq<Seq<char>>)
    requires
        forall|i: int| 0 <= i < items.len() ==> is_ascii_chars(#[trigger] items[i]),
    ensures
        is_ascii_chars(render_csv(items)),
    decreases items.len(),
{
    if items.len() == 1 {
        assert(is_ascii_chars(items[0]));
    } else if items.len() > 1 {
        let init = items.drop_last();
        assert forall|i: int| 0 <= i < init.len() implies is_ascii_chars(#[trigger] init[i]) by {
            assert(init[i] == items[i]);
        }
        lemma_join_ascii(init);
        let a = render_csv(init);
        let b = items.last();
        assert(items[items.len() - 1] == b);
        let r = a + csv_sep() + b;
        assert(render_csv(items) == r);
        assert forall|k: int| 0 <= k < r.len() implies (#[trigger] r[k]) as u32 <= 0x7F by {
            if k < a.len() {
                assert(r[k] == a[k]);
            } else if k < a.len() + 2 {
                assert(r[k] == csv_sep()[k - a.len()]);
            } else {
                assert(r[k] == b[k - a.len() - 2]);
            }
        }
    }
}

proof fn lemma_lower_item_list(items: Seq<Seq<char>>)
    requires
        is_item_list(items),
        forall|i: int| 0 <= i < items.len() ==> is_ascii_chars(#[trigger] items[i]),
    ensures
        is_item_list(ascii_lower_items(items)),
        forall|i: int|
            0 <= i < items.len() ==> is_ascii_chars(#[trigger] ascii_lower_items(items)[i]),
        ascii_lower_items(ascii_lower_items(items)) == ascii_lower_items(items),
{
    let l = ascii_lower_items(items);
    assert forall|i: int| 0 <= i < l.len() implies {
        &&& (#[trigger] l[i]).len() > 0
        &&& is_trimmed(l[i])
        &&& !l[i].contains(',')
        &&& is_ascii_chars(l[i])
        &&& ascii_lower_seq(l[i]) == l[i]
    } by {
        let x = items[i];
        assert(is_ascii_chars(x));
        assert(x.len() > 0 && is_trimmed(x) && !x.contains(','));
        assert(l[i] == ascii_lower_seq(x));
        assert forall|k: int| 0 <= k < x.len() implies #[trigger] ascii_lower_seq(x)[k]
            == ascii_lower_spec(x[k]) && ascii_lower_spec(x[k]) as u32 <= 0x7F
            && ascii_lower_spec(ascii_lower_spec(x[k])) == ascii_lower_spec(x[k])
            && is_whitespace_spec(ascii_lower_spec(x[k])) == is_whitespace_spec(x[k])
            && (ascii_lower_spec(x[k]) == ',') == (x[k] == ',') by {
            lemma_ascii_lower_char(x[k]);
        }
        assert(l[i][0] == ascii_lower_spec(x[0]));
        assert(l[i].last() == ascii_lower_spec(x.last()));
        if l[i].contains(',') {
            let k = choose|k: int| 0 <= k < l[i].len() && l[i][k] == ',';
            assert(ascii_lower_seq(x)[k] == ',');
            assert(x[k] == ',');
        }
        assert(ascii_lower_seq(l[i]) =~= l[i]);
    }
    assert(ascii_lower_items(l) =~= l);
}

/// On ASCII text, reading a list with `parse_csv`, writing the items back
/// with `", "` and reading that again gives the same items. (`parse_csv`
/// yields `ascii_lower_items(csv_items(s))` on ASCII text `s`, and the
/// written items are ASCII again.)
pub proof fn law_parse_csv_idempotent_ascii(s: Seq<char>)
    requires
        is_ascii_chars(s),
    ensures
        is_ascii_chars(render_csv(ascii_lower_items(csv_items(s)))),
        ascii_lower_items(csv_items(render_csv(ascii_lower_items(csv_items(s)))))
            == ascii_lower_items(csv_items(s)),
{
    let items = csv_items(s);
    law_csv_items_shape(s);
    lemma_split_pieces_ascii(s, ',');
    lemma_collect_ascii(split_spec(s, ','));
    lemma_lower_item_list(items);
    let l = ascii_lower_items(items);
    lemma_join_ascii(l);
    law_csv_roundtrip(l);
}

/// Reading, writing and reading a list again reads the same items:
/// normalising a list twice is normalising it once.
pub proof fn law_normalize_idempotent(csv: Seq<char>)
    ensures
        csv_items(render_csv(csv_items(csv))) == csv_items(csv),
{
    law_csv_items_shape(csv);
    law_csv_roundtrip(csv_items(csv));
}

/// Adding the same item twice is adding it once, for any item without `,`.
pub proof fn law_add_to_csv_idempotent(csv: Seq<char>, item: Seq<char>)
    requires
        !item.contains(','),
    ensures
        add_to_csv_spec(add_to_csv_spec(csv, item), item) == add_to_csv_spec(csv, item),
{
    let items = csv_items(csv);
    let t = trim_spec(item);
    law_csv_items_shape(csv);
    lemma_trim_keeps_absence(item, ',');
    lemma_trim_is_trimmed(item);
    if t.len() > 0 && !contains_ignore_ascii_case(items, t) {
        let grown = items.push(t);
        assert(is_item_list(grown)) by {
            assert forall|i: int| 0 <= i < grown.len() implies {
                &&& (#[trigger] grown[i]).len() > 0
                &&& is_trimmed(grown[i])
                &&& !grown[i].contains(',')
            } by {
                if i < items.len() {
                    assert(grown[i] == items[i]);
                }
            }
        }
        law_csv_roundtrip(grown);
        assert(eq_ignore_ascii_case_spec(grown[grown.len() - 1], t));
        assert(contains_ignore_ascii_case(grown, t));
    } else {
        law_csv_roundtrip(items);
    }
}

/// Adding a new item and then removing the last position gives back the
/// normalised list, for any item without `,`.
pub proof fn law_remove_after_add(csv: Seq<char>, item: Seq<char>)
    requires
        !item.contains(','),
    ensures
        remove_from_csv_spec(add_to_csv_spec(csv, item), csv_items(csv).len() as int)
            == render_csv(csv_items(csv)),
{
    let items = csv_items(csv);
    let t = trim_spec(item);
    law_csv_items_shape(csv);
    lemma_trim_keeps_absence(item, ',');
    lemma_trim_is_trimmed(item);
    if t.len() > 0 && !contains_ignore_ascii_case(items, t) {
        let grown = items.push(t);
        assert(is_item_list(grown)) by {
            assert forall|i: int| 0 <= i < grown.len() implies {
                &&& (#[trigger] grown[i]).len() > 0
                &&& is_trimmed(grown[i])
                &&& !grown[i].contains(',')
            } by {
                if i < items.len() {
                    assert(grown[i] == items[i]);
                }
            }
        }
        law_csv_roundtrip(grown);
        assert(grown.remove(items.len() as int) =~= items);
    } else {
        law_csv_roundtrip(items);
    }
}

/// Removing with an index past the end only normalises the list.
pub proof fn law_remove_out_of_range(csv: Seq<char>, idx: int)
    requires
        idx >= csv_items(csv).len(),
    ensures
        remove_from_csv_spec(csv, idx) == render_csv(csv_items(csv)),
{
}

/// `parse_csv` never yields an empty item.
pub proof fn law_parse_csv_items_nonempty(s: Seq<char>)
    ensures
        forall|i: int| 0 <= i < parse_csv_spec(s).len() ==> (#[trigger] parse_csv_spec(s)[i]).len() > 0,
{
    lemma_collect_nonempty(split_spec(s, ','), true);
}

proof fn lemma_collect_nonempty(pieces: Seq<Seq<char>>, lower: bool)
    ensures
        forall|i: int|
            0 <= i < collect_items(pieces, lower).len() ==> (#[trigger] collect_items(
                pieces,
                lower,
            )[i]).len() > 0,
    decreases pieces.len(),
{
    if pieces.len() > 0 {
        let r = collect_items(pieces.drop_last(), lower);
        lemma_collect_nonempty(pieces.drop_last(), lower);
        assert forall|i: int| 0 <= i < collect_items(pieces, lower).len() implies (
        #[trigger] collect_items(pieces, lower)[i]).len() > 0 by {
            if i < r.len() {
                assert(collect_items(pieces, lower)[i] == r[i]);
            }
        }
    }
}

} // verus!
