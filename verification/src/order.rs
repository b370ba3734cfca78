//! The order of strings (`String`'s `Ord`: byte order of UTF-8, which is the
//! order of code points) and sorted, duplicate-free lists of strings.
use vstd::prelude::*;

use crate::text::{chars_of, views};

verus! {

broadcast use vstd::seq_lib::group_seq_properties;

/// `a` comes before `b` in lexicographic order of code points.
pub open spec fn lex_lt(a: Seq<char>, b: Seq<char>) -> bool
    decreases a.len(),
{
    if a.len() == 0 {
        b.len() > 0
    } else if b.len() == 0 {
        false
    } else if a[0] != b[0] {
        (a[0] as u32) < (b[0] as u32)
    } else {
        lex_lt(a.drop_first(), b.drop_first())
    }
}

/// Every string comes strictly before the ones after it.
pub open spec fn strictly_sorted(s: Seq<Seq<char>>) -> bool {
    forall|i: int, j: int| 0 <= i < j < s.len() ==> lex_lt(s[i], s[j])
}

pub proof fn lemma_lex_transitive(a: Seq<char>, b: Seq<char>, c: Seq<char>)
    requires
        lex_lt(a, b),
        lex_lt(b, c),
    ensures
        lex_lt(a, c),
    decreases a.len(),
{
    if a.len() > 0 && b.len() > 0 && c.len() > 0 {
        if a[0] == b[0] && b[0] == c[0] {
            lemma_lex_transitive(a.drop_first(), b.drop_first(), c.drop_first());
        }
    }
}

pub proof fn lemma_lex_total(a: Seq<char>, b: Seq<char>)
    requires
        a != b,
    ensures
        lex_lt(a, b) || lex_lt(b, a),
    decreases a.len(),
{
    if a.len() == 0 {
        assert(b.len() > 0) by {
            if b.len() == 0 {
                assert(a =~= b);
            }
        }
    } else if b.len() > 0 && a[0] == b[0] {
        if a.drop_first() == b.drop_first() {
            assert(a =~= seq![a[0]] + a.drop_first());
            assert(b =~= seq![b[0]] + b.drop_first());
        }
        lemma_lex_total(a.drop_first(), b.drop_first());
    } else if b.len() > 0 {
        vstd::utf8::char_u32_cast(a[0], a[0] as u32);
        vstd::utf8::char_u32_cast(b[0], b[0] as u32);
    }
}

/// Whether `a` comes before `b` (`String`'s `<`).
pub fn text_less(a: &str, b: &str) -> (r: bool)
    ensures
        r == lex_lt(a@, b@),
{
    let x = chars_of(a);
    let y = chars_of(b);
    let mut i: usize = 0;
    assert(a@.skip(0) =~= a@);
    assert(b@.skip(0) =~= b@);
    while i < x.len() && i < y.len() && x[i] == y[i]
        invariant
            x@ == a@,
            y@ == b@,
            i <= x.len(),
            i <= y.len(),
            lex_lt(a@, b@) == lex_lt(a@.skip(i as int), b@.skip(i as int)),
        decreases x.len() - i,
    {
        assert(a@.skip(i as int).drop_first() =~= a@.skip(i + 1));
        assert(b@.skip(i as int).drop_first() =~= b@.skip(i + 1));
        assert(a@.skip(i as int)[0] == a@[i as int]);
        assert(b@.skip(i as int)[0] == b@[i as int]);
        i = i + 1;
    }
    if i == x.len() {
        i < y.len()
    } else if i == y.len() {
        false
    } else {
        assert(a@.skip(i as int)[0] == a@[i as int]);
        assert(b@.skip(i as int)[0] == b@[i as int]);
        (x[i] as u32) < (y[i] as u32)
    }
}

/// Adds `name` to a sorted list without duplicates, keeping it so.
pub fn insert_sorted(sorted: &mut Vec<String>, name: String)
    requires
        strictly_sorted(views(old(sorted)@)),
    ensures
        strictly_sorted(views(final(sorted)@)),
        views(final(sorted)@).to_set() == views(old(sorted)@).to_set().insert(name@),
{
    let ghost s = views(sorted@);
    let mut p: usize = 0;
    while p < sorted.len() && text_less(sorted[p].as_str(), name.as_str())
        invariant
            s == views(sorted@),
            p <= sorted.len(),
            forall|j: int| 0 <= j < p ==> lex_lt(s[j], name@),
        decreases sorted.len() - p,
    {
        p = p + 1;
    }
    if p < sorted.len() && crate::text::same_text(sorted[p].as_str(), name.as_str()) {
        assert(s.to_set().insert(name@) =~= s.to_set()) by {
            assert(s[p as int] == name@);
        }
        return;
    }
    proof {
        if p < s.len() {
            lemma_lex_total(s[p as int], name@);
        }
    }
    sorted.insert(p, name);
    let ghost t = views(sorted@);
    assert(t =~= s.insert(p as int, name@));
    assert forall|i: int, j: int| 0 <= i < j < t.len() implies lex_lt(t[i], t[j]) by {
        if j < p {
        } else if j == p {
        } else if i < p {
            lemma_lex_total(s[p as int], name@);
            if j - 1 > p {
                lemma_lex_transitive(name@, s[p as int], s[j - 1]);
            }
            lemma_lex_transitive(s[i], name@, s[j - 1]);
        } else if i == p {
            if j - 1 > p {
                lemma_lex_transitive(name@, s[p as int], s[j - 1]);
            }
        } else {
        }
    }
    assert(t.to_set() =~= s.to_set().insert(name@)) by {
        assert forall|x: Seq<char>| t.to_set().contains(x) implies s.to_set().insert(
            name@,
        ).contains(x) by {
            let k = choose|k: int| 0 <= k < t.len() && t[k] == x;
            if k < p {
                assert(s[k] == x);
            } else if k > p {
                assert(s[k - 1] == x);
            }
        }
        assert forall|x: Seq<char>| s.to_set().insert(name@).contains(x) implies t.to_set().contains(
            x,
        ) by {
            if x == name@ {
                assert(t[p as int] == x);
            } else {
                let k = choose|k: int| 0 <= k < s.len() && s[k] == x;
                if k < p {
                    assert(t[k] == x);
                } else {
                    assert(t[k + 1] == x);
                }
            }
        }
    }
}

/// `names`, sorted and without duplicates (`sort` then `dedup`).
pub fn sorted_unique(names: &Vec<String>) -> (r: Vec<String>)
    ensures
        strictly_sorted(views(r@)),
        views(r@).to_set() == views(names@).to_set(),
{
    let mut sorted: Vec<String> = Vec::new();
    let mut i: usize = 0;
    assert(views(names@).take(0).to_set() =~= views(sorted@).to_set());
    while i < names.len()
        invariant
            i <= names.len(),
            strictly_sorted(views(sorted@)),
            views(sorted@).to_set() == views(names@).take(i as int).to_set(),
        decreases names.len() - i,
    {
        let ghost before = views(names@).take(i as int);
        insert_sorted(&mut sorted, names[i].clone());
        assert(views(names@).take(i + 1) =~= before.push(names@[i as int]@));
        assert(before.push(names@[i as int]@).to_set() =~= before.to_set().insert(
            names@[i as int]@,
        )) by {
            let b = before.push(names@[i as int]@);
            assert forall|x: Seq<char>| b.to_set().contains(x) implies before.to_set().insert(
                names@[i as int]@,
            ).contains(x) by {
                let k = choose|k: int| 0 <= k < b.len() && b[k] == x;
                if k < before.len() {
                    assert(before[k] == x);
                }
            }
            assert forall|x: Seq<char>| before.to_set().insert(names@[i as int]@).contains(x) implies b.to_set().contains(x) by {
                if x == names@[i as int]@ {
                    assert(b[before.len() as int] == x);
                } else {
                    let k = choose|k: int| 0 <= k < before.len() && before[k] == x;
                    assert(b[k] == x);
                }
            }
        }
        i = i + 1;
    }
    assert(views(names@).take(names.len() as int) =~= views(names@));
    sorted
}

} // verus!
