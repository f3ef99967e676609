//! Equality-based label selectors: `k1=v1,k2=v2`.
use vstd::prelude::*;
use vstd::string::*;
use crate::model::{labels_view, strings_view};

verus! {

pub open spec fn entry_text(e: (Seq<char>, Seq<char>)) -> Seq<char> {
    e.0 + seq!['='] + e.1
}

/// The entries rendered `key=value`, joined by `,`, in the order given.
pub open spec fn selector_text(s: Seq<(Seq<char>, Seq<char>)>) -> Seq<char>
    decreases s.len(),
{
    if s.len() == 0 {
        seq![]
    } else if s.len() == 1 {
        entry_text(s[0])
    } else {
        selector_text(s.drop_last()) + seq![','] + entry_text(s.last())
    }
}

/// The pieces of `t` between occurrences of `sep` (always at least one piece).
pub open spec fn split(t: Seq<char>, sep: char) -> Seq<Seq<char>>
    decreases t.len(),
{
    if t.len() == 0 {
        seq![seq![]]
    } else {
        let p = split(t.drop_last(), sep);
        if t.last() == sep {
            p.push(seq![])
        } else {
            p.update(p.len() - 1, p.last().push(t.last()))
        }
    }
}

/// One `key=value` requirement; anything else is no equality requirement.
pub open spec fn parse_entry(e: Seq<char>) -> Option<(Seq<char>, Seq<char>)> {
    let parts = split(e, '=');
    if parts.len() == 2 {
        Some((parts[0], parts[1]))
    } else {
        None
    }
}

/// The requirements of a selector text, or `None` when a piece is not `key=value`.
pub open spec fn parse_selector_text(t: Seq<char>) -> Option<Seq<(Seq<char>, Seq<char>)>> {
    if t.len() == 0 {
        Some(seq![])
    } else {
        let pieces = split(t, ',');
        if forall|i: int| 0 <= i < pieces.len() ==> (#[trigger] parse_entry(pieces[i])) is Some {
            Some(pieces.map_values(|p: Seq<char>| parse_entry(p)->0))
        } else {
            None
        }
    }
}

/// Neither keys nor values hold a `,` or a `=`, as for every valid Kubernetes label.
pub open spec fn plain_labels(s: Seq<(Seq<char>, Seq<char>)>) -> bool {
    forall|i: int| 0 <= i < s.len() ==> {
        &&& !(#[trigger] s[i]).0.contains(',')
        &&& !s[i].0.contains('=')
        &&& !s[i].1.contains(',')
        &&& !s[i].1.contains('=')
    }
}

/// `a` sorts strictly before `b`, comparing characters by code point (the order
/// of `String`s, whose UTF-8 bytes sort the same way).
pub open spec fn text_lt(a: Seq<char>, b: Seq<char>) -> bool
    decreases a.len(),
{
    if a.len() == 0 {
        b.len() > 0
    } else if b.len() == 0 {
        false
    } else if a[0] != b[0] {
        (a[0] as u32) < (b[0] as u32)
    } else {
        text_lt(a.drop_first(), b.drop_first())
    }
}

/// The entries of a label map: keys strictly ascending, hence unique.
pub open spec fn keys_ascending(s: Seq<(Seq<char>, Seq<char>)>) -> bool {
    forall|i: int| 0 <= i < s.len() - 1 ==> #[trigger] text_lt(s[i].0, s[i + 1].0)
}

/// Whether `a` sorts strictly before `b`.
pub fn text_less(a: &String, b: &String) -> (r: bool)
    ensures
        r == text_lt(a@, b@),
{
    let sa = a.as_str();
    let sb = b.as_str();
    let na = sa.unicode_len();
    let nb = sb.unicode_len();
    let mut i: usize = 0;
    assert(sa@.skip(0) =~= sa@);
    assert(sb@.skip(0) =~= sb@);
    while i < na && i < nb
        invariant
            i <= na,
            i <= nb,
            sa@ == a@,
            sb@ == b@,
            na == sa@.len(),
            nb == sb@.len(),
            text_lt(sa@, sb@) == text_lt(sa@.skip(i as int), sb@.skip(i as int)),
        decreases na - i,
    {
        let ca = sa.get_char(i);
        let cb = sb.get_char(i);
        assert(sa@.skip(i as int)[0] == ca);
        assert(sb@.skip(i as int)[0] == cb);
        if ca != cb {
            assert(sa@.skip(i as int).len() > 0 && sb@.skip(i as int).len() > 0);
            assert(text_lt(sa@.skip(i as int), sb@.skip(i as int)) == ((ca as u32) < (cb as u32)));
            return (ca as u32) < (cb as u32);
        }
        assert(sa@.skip(i as int).drop_first() =~= sa@.skip(i + 1));
        assert(sb@.skip(i as int).drop_first() =~= sb@.skip(i + 1));
        i = i + 1;
    }
    assert(i == na ==> sa@.skip(i as int).len() == 0);
    assert(i == nb ==> sb@.skip(i as int).len() == 0);
    i < nb
}

/// Whether the entries' keys are strictly ascending.
pub fn in_key_order(sel: &Vec<(String, String)>) -> (r: bool)
    ensures
        r == keys_ascending(labels_view(sel@)),
{
    let ghost s = labels_view(sel@);
    let mut i: usize = 1;
    while i < sel.len()
        invariant
            1 <= i,
            s == labels_view(sel@),
            forall|j: int| 0 <= j < i - 1 && j < s.len() - 1 ==> #[trigger] text_lt(s[j].0, s[j + 1].0),
        decreases sel@.len() - i,
    {
        if !text_less(&sel[i - 1].0, &sel[i].0) {
            assert(!text_lt(s[i - 1].0, s[(i - 1) + 1].0));
            return false;
        }
        i = i + 1;
    }
    true
}

/// Renders a label map (entries in key order) as a selector string.
pub fn format_selector(sel: &Vec<(String, String)>) -> (r: String)
    requires
        keys_ascending(labels_view(sel@)),
    ensures
        r@ == selector_text(labels_view(sel@)),
{
    let mut r = String::new();
    let mut i: usize = 0;
    while i < sel.len()
        invariant
            0 <= i <= sel@.len(),
            r@ == selector_text(labels_view(sel@.subrange(0, i as int))),
        decreases sel@.len() - i,
    {
        proof {
            reveal_strlit(",");
            reveal_strlit("=");
        }
        let ghost prev = labels_view(sel@.subrange(0, i as int));
        if i > 0 {
            r.append(",");
        }
        r.append(sel[i].0.as_str());
        r.append("=");
        r.append(sel[i].1.as_str());
        i = i + 1;
        proof {
            let cur = labels_view(sel@.subrange(0, i as int));
            assert(cur.drop_last() =~= prev);
            assert(cur.last() == (sel@[i - 1].0@, sel@[i - 1].1@));
            assert(r@ =~= selector_text(cur));
        }
    }
    assert(sel@.subrange(0, sel@.len() as int) =~= sel@);
    r
}

/// Splits `t` at every `sep`.
fn split_on(t: &str, sep: char) -> (r: Vec<String>)
    ensures
        strings_view(r@) == split(t@, sep),
{
    let n = t.unicode_len();
    let mut parts: Vec<String> = Vec::new();
    let mut start: usize = 0;
    let mut i: usize = 0;
    assert(t@.subrange(0, 0) =~= Seq::<char>::empty());
    assert(strings_view(parts@).push(t@.subrange(0, 0)) =~= split(t@.subrange(0, 0), sep));
    while i < n
        invariant
            0 <= start <= i <= n,
            n == t@.len(),
            strings_view(parts@).push(t@.subrange(start as int, i as int)) == split(
                t@.subrange(0, i as int),
                sep,
            ),
        decreases n - i,
    {
        let ch = t.get_char(i);
        let ghost prev_parts = strings_view(parts@);
        let ghost seg = t@.subrange(start as int, i as int);
        assert(t@.subrange(0, i + 1).drop_last() =~= t@.subrange(0, i as int));
        if ch == sep {
            let piece = String::from_str(t.substring_char(start, i));
            parts.push(piece);
            start = i + 1;
            assert(strings_view(parts@) =~= prev_parts.push(seg));
            assert(t@.subrange(start as int, i + 1) =~= Seq::<char>::empty());
            assert(t@.subrange(0, i + 1).last() == sep);
            assert(strings_view(parts@).push(t@.subrange(start as int, i + 1)) =~= split(
                t@.subrange(0, i + 1),
                sep,
            ));
        } else {
            let ghost p = split(t@.subrange(0, i as int), sep);
            assert(p == prev_parts.push(seg));
            assert(t@.subrange(0, i + 1).last() == ch);
            assert(split(t@.subrange(0, i + 1), sep) == p.update(p.len() - 1, p.last().push(ch)));
            assert(t@.subrange(start as int, i + 1) =~= seg.push(ch));
            assert(strings_view(parts@).push(t@.subrange(start as int, i + 1)) =~= split(
                t@.subrange(0, i + 1),
                sep,
            ));
        }
        i = i + 1;
    }
    let ghost prev_parts = strings_view(parts@);
    let piece = String::from_str(t.substring_char(start, n));
    parts.push(piece);
    assert(strings_view(parts@) =~= prev_parts.push(t@.subrange(start as int, n as int)));
    assert(t@.subrange(0, n as int) =~= t@);
    parts
}

/// Parses an equality-based selector; `None` when a piece is not `key=value`.
pub fn parse_selector(text: &str) -> (r: Option<Vec<(String, String)>>)
    ensures
        match r {
            Some(v) => parse_selector_text(text@) == Some(labels_view(v@)),
            None => parse_selector_text(text@) is None,
        },
{
    let mut out: Vec<(String, String)> = Vec::new();
    if text.unicode_len() == 0 {
        assert(labels_view(out@) =~= Seq::<(Seq<char>, Seq<char>)>::empty());
        return Some(out);
    }
    let pieces = split_on(text, ',');
    let ghost pv = strings_view(pieces@);
    let mut i: usize = 0;
    while i < pieces.len()
        invariant
            0 <= i <= pieces@.len(),
            pv == strings_view(pieces@),
            pv == split(text@, ','),
            text@.len() > 0,
            forall|j: int| 0 <= j < i ==> (#[trigger] parse_entry(pv[j])) is Some,
            labels_view(out@) =~= pv.subrange(0, i as int).map_values(|p: Seq<char>| parse_entry(p)->0),
        decreases pieces@.len() - i,
    {
        let kv = split_on(pieces[i].as_str(), '=');
        assert(strings_view(kv@) == split(pv[i as int], '='));
        if kv.len() != 2 {
            assert(parse_entry(pv[i as int]) is None);
            return None;
        }
        let ghost before = out@;
        out.push((kv[0].clone(), kv[1].clone()));
        assert(labels_view(out@) =~= labels_view(before).push((kv@[0]@, kv@[1]@)));
        i = i + 1;
        assert(pv.subrange(0, i as int) =~= pv.subrange(0, i - 1).push(pv[i - 1]));
    }
    assert(pv.subrange(0, pv.len() as int) =~= pv);
    Some(out)
}

proof fn lemma_split_without_sep(b: Seq<char>, sep: char)
    requires
        !b.contains(sep),
    ensures
        split(b, sep) == seq![b],
    decreases b.len(),
{
    if b.len() > 0 {
        assert(!b.drop_last().contains(sep)) by {
            if b.drop_last().contains(sep) {
                let k = choose|k: int| 0 <= k < b.drop_last().len() && b.drop_last()[k] == sep;
                assert(b[k] == sep);
            }
        }
        lemma_split_without_sep(b.drop_last(), sep);
        assert(b[b.len() - 1] != sep);
        assert(b.drop_last().push(b.last()) =~= b);
        assert(split(b, sep) =~= seq![b]);
    } else {
        assert(b =~= Seq::<char>::empty());
    }
}

proof fn lemma_split_after_sep(a: Seq<char>, b: Seq<char>, sep: char)
    requires
        !b.contains(sep),
    ensures
        split(a + seq![sep] + b, sep) == split(a, sep).push(b),
    decreases b.len(),
{
    let t = a + seq![sep] + b;
    if b.len() == 0 {
        assert(t.drop_last() =~= a);
        assert(t.last() == sep);
        assert(b =~= Seq::<char>::empty());
    } else {
        assert(!b.drop_last().contains(sep)) by {
            if b.drop_last().contains(sep) {
                let k = choose|k: int| 0 <= k < b.drop_last().len() && b.drop_last()[k] == sep;
                assert(b[k] == sep);
            }
        }
        lemma_split_after_sep(a, b.drop_last(), sep);
        assert(t.drop_last() =~= a + seq![sep] + b.drop_last());
        assert(t.last() == b[b.len() - 1]);
        assert(b.drop_last().push(b.last()) =~= b);
        assert(split(t, sep) =~= split(a, sep).push(b));
    }
}

proof fn lemma_entry_plain(e: (Seq<char>, Seq<char>))
    requires
        !e.0.contains(','),
        !e.0.contains('='),
        !e.1.contains(','),
        !e.1.contains('='),
    ensures
        !entry_text(e).contains(','),
        parse_entry(entry_text(e)) == Some(e),
{
    let t = entry_text(e);
    assert(!t.contains(',')) by {
        if t.contains(',') {
            let k = choose|k: int| 0 <= k < t.len() && t[k] == ',';
            if k < e.0.len() {
                assert(e.0[k] == ',');
            } else if k > e.0.len() {
                assert(e.1[k - e.0.len() - 1] == ',');
            }
        }
    }
    lemma_split_after_sep(e.0, e.1, '=');
    lemma_split_without_sep(e.0, '=');
}

proof fn lemma_split_selector_text(s: Seq<(Seq<char>, Seq<char>)>)
    requires
        s.len() > 0,
        plain_labels(s),
    ensures
        selector_text(s).len() > 0,
        split(selector_text(s), ',') == s.map_values(|e: (Seq<char>, Seq<char>)| entry_text(e)),
    decreases s.len(),
{
    let last = s.last();
    assert(last == s[s.len() - 1]);
    lemma_entry_plain(last);
    if s.len() == 1 {
        lemma_split_without_sep(entry_text(s[0]), ',');
        assert(s.map_values(|e: (Seq<char>, Seq<char>)| entry_text(e)) =~= seq![entry_text(s[0])]);
    } else {
        let init = s.drop_last();
        assert(plain_labels(init)) by {
            assert forall|i: int| 0 <= i < init.len() implies {
                &&& !(#[trigger] init[i]).0.contains(',')
                &&& !init[i].0.contains('=')
                &&& !init[i].1.contains(',')
                &&& !init[i].1.contains('=')
            } by {
                assert(init[i] == s[i]);
            }
        }
        lemma_split_selector_text(init);
        lemma_split_after_sep(selector_text(init), entry_text(last), ',');
        assert(s.map_values(|e: (Seq<char>, Seq<char>)| entry_text(e)) =~= init.map_values(
            |e: (Seq<char>, Seq<char>)| entry_text(e),
        ).push(entry_text(last)));
    }
}

/// Parsing a formatted selector gives back the entries it was formatted from,
/// whenever no key or value holds a `,` or a `=`.
pub proof fn lemma_selector_round_trip(s: Seq<(Seq<char>, Seq<char>)>)
    requires
        plain_labels(s),
    ensures
        parse_selector_text(selector_text(s)) == Some(s),
{
    if s.len() > 0 {
        lemma_split_selector_text(s);
        let pieces = split(selector_text(s), ',');
        assert forall|i: int| 0 <= i < pieces.len() implies (#[trigger] parse_entry(pieces[i])) is Some
            && parse_entry(pieces[i])->0 == s[i] by {
            lemma_entry_plain(s[i]);
        }
        assert(pieces.map_values(|p: Seq<char>| parse_entry(p)->0) =~= s);
    } else {
        assert(selector_text(s) =~= Seq::<char>::empty());
        assert(s =~= Seq::<(Seq<char>, Seq<char>)>::empty());
    }
}

} // verus!
