//! The list of font families offered to the user: every family the system
//! reports, once, in order.
use vstd::prelude::*;
use crate::app::names_view;
use crate::text::{chars_of, lemma_lex_irreflexive, lemma_lex_total, lemma_lex_transitive, lex_less, lex_lt};

verus! {

/// Each name comes strictly before the next.
pub open spec fn strictly_sorted(s: Seq<Seq<char>>) -> bool {
    forall|i: int, j: int| 0 <= i < j < s.len() ==> lex_lt(#[trigger] s[i], #[trigger] s[j])
}

/// The system's font families without repeats, in lexicographic order of
/// their characters (the order a set of strings keeps them in).
pub fn sorted_families(families: Vec<String>) -> (r: Vec<String>)
    ensures
        strictly_sorted(names_view(r@)),
        forall|x: Seq<char>| names_view(r@).contains(x) <==> names_view(families@).contains(x),
{
    let mut res: Vec<String> = Vec::new();
    let mut keys: Vec<Vec<char>> = Vec::new();
    let mut n: usize = 0;
    while n < families.len()
        invariant
            n <= families@.len(),
            keys@.len() == res@.len(),
            forall|i: int| 0 <= i < res@.len() ==> #[trigger] keys@[i]@ == res@[i]@,
            strictly_sorted(names_view(res@)),
            forall|x: Seq<char>|
                names_view(res@).contains(x) <==> names_view(families@).take(n as int).contains(x),
        decreases families@.len() - n,
    {
        let name = &families[n];
        let key = chars_of(name.as_str());
        let ghost before = names_view(res@);
        assert(forall|x: Seq<char>|
            before.contains(x) <==> names_view(families@).take(n as int).contains(x));
        let mut p: usize = 0;
        while p < keys.len() && lex_less(&keys[p], &key)
            invariant
                p <= keys@.len(),
                keys@.len() == res@.len(),
                before == names_view(res@),
                forall|i: int| 0 <= i < res@.len() ==> #[trigger] keys@[i]@ == res@[i]@,
                forall|i: int| 0 <= i < p ==> lex_lt(#[trigger] before[i], key@),
            decreases keys@.len() - p,
        {
            p = p + 1;
        }
        let present = p < keys.len() && !lex_less(&key, &keys[p]);
        proof {
            if p < keys@.len() {
                assert(before[p as int] == keys@[p as int]@);
                lemma_lex_total(key@, before[p as int]);
            }
        }
        if !present {
            proof {
                assert forall|i: int| p <= i < before.len() implies lex_lt(key@, #[trigger] before[i]) by {
                    if i > p {
                        lemma_lex_transitive(key@, before[p as int], before[i]);
                    }
                }
            }
            let ghost keys_before = keys@;
            res.insert(p, name.clone());
            keys.insert(p, key);
            proof {
                let after = names_view(res@);
                assert(after =~= before.insert(p as int, name@));
                assert forall|i: int, j: int| 0 <= i < j < after.len() implies lex_lt(
                    #[trigger] after[i],
                    #[trigger] after[j],
                ) by {
                    if j < p {
                        assert(after[i] == before[i] && after[j] == before[j]);
                    } else if j == p {
                        assert(after[i] == before[i]);
                    } else if i < p {
                        assert(after[i] == before[i] && after[j] == before[j - 1]);
                        lemma_lex_transitive(before[i], key@, before[j - 1]);
                    } else if i == p {
                        assert(after[j] == before[j - 1]);
                    } else {
                        assert(after[i] == before[i - 1] && after[j] == before[j - 1]);
                    }
                }
                assert forall|i: int| 0 <= i < res@.len() implies #[trigger] keys@[i]@ == res@[i]@ by {
                    if i < p {
                    } else if i > p {
                        assert(keys@[i] == keys_before[i - 1]);
                    }
                }
            }
        } else {
            proof {
                assert(before[p as int] == key@);
            }
        }
        proof {
            let prefix = names_view(families@).take(n as int);
            let taken = names_view(families@).take(n as int + 1);
            assert(taken =~= prefix.push(name@));
            assert forall|x: Seq<char>| taken.contains(x) <==> (prefix.contains(x) || x == name@) by {
                if taken.contains(x) {
                    let k = choose|k: int| 0 <= k < taken.len() && taken[k] == x;
                    if k < n {
                        assert(prefix[k] == x);
                    }
                }
                if prefix.contains(x) {
                    let k = choose|k: int| 0 <= k < prefix.len() && prefix[k] == x;
                    assert(taken[k] == x);
                }
                if x == name@ {
                    assert(taken[n as int] == x);
                }
            }
            let after = names_view(res@);
            assert forall|x: Seq<char>| after.contains(x) <==> (before.contains(x) || x == name@) by {
                if !present {
                    assert(after =~= before.insert(p as int, name@));
                    if after.contains(x) {
                        let i = choose|i: int| 0 <= i < after.len() && after[i] == x;
                        if i < p {
                            assert(before[i] == x);
                        } else if i > p {
                            assert(before[i - 1] == x);
                        }
                    }
                    if before.contains(x) {
                        let i = choose|i: int| 0 <= i < before.len() && before[i] == x;
                        if i < p {
                            assert(after[i] == x);
                        } else {
                            assert(after[i + 1] == x);
                        }
                    }
                    if x == name@ {
                        assert(after[p as int] == x);
                    }
                } else {
                    assert(after == before);
                    if x == name@ {
                        assert(before[p as int] == x);
                    }
                }
            }
        }
        n = n + 1;
    }
    assert(names_view(families@).take(families@.len() as int) =~= names_view(families@));
    res
}

/// Listing the same families again, in any order and with any repeats,
/// gives the same list: the result depends only on which families there are.
pub proof fn law_sorted_list_is_unique(a: Seq<Seq<char>>, b: Seq<Seq<char>>)
    requires
        strictly_sorted(a),
        strictly_sorted(b),
        forall|x: Seq<char>| a.contains(x) <==> b.contains(x),
    ensures
        a == b,
    decreases a.len() + b.len(),
{
    if a.len() == 0 || b.len() == 0 {
        if a.len() > 0 {
            assert(a.contains(a[0]));
        }
        if b.len() > 0 {
            assert(b.contains(b[0]));
        }
        assert(a =~= b);
    } else {
        assert(a.contains(a[0]));
        assert(b.contains(b[0]));
        let i = choose|i: int| 0 <= i < b.len() && b[i] == a[0];
        let j = choose|j: int| 0 <= j < a.len() && a[j] == b[0];
        if i > 0 {
            assert(lex_lt(b[0], b[i]));
            if j > 0 {
                assert(lex_lt(a[0], a[j]));
                lemma_lex_transitive(a[0], b[0], a[0]);
                lemma_lex_irreflexive(a[0]);
            } else {
                lemma_lex_irreflexive(a[0]);
            }
        }
        if j > 0 {
            assert(lex_lt(a[0], a[j]));
            lemma_lex_irreflexive(b[0]);
        }
        assert(a[0] == b[0]);
        let a1 = a.drop_first();
        let b1 = b.drop_first();
        assert forall|x: Seq<char>| a1.contains(x) <==> b1.contains(x) by {
            if a1.contains(x) {
                let k = choose|k: int| 0 <= k < a1.len() && a1[k] == x;
                assert(a[k + 1] == x);
                assert(lex_lt(a[0], a[k + 1]));
                assert(b.contains(x));
                let m = choose|m: int| 0 <= m < b.len() && b[m] == x;
                if m == 0 {
                    lemma_lex_irreflexive(x);
                }
                assert(b1[m - 1] == x);
            }
            if b1.contains(x) {
                let k = choose|k: int| 0 <= k < b1.len() && b1[k] == x;
                assert(b[k + 1] == x);
                assert(lex_lt(b[0], b[k + 1]));
                assert(a.contains(x));
                let m = choose|m: int| 0 <= m < a.len() && a[m] == x;
                if m == 0 {
                    lemma_lex_irreflexive(x);
                }
                assert(a1[m - 1] == x);
            }
        }
        assert forall|p: int, q: int| 0 <= p < q < a1.len() implies lex_lt(#[trigger] a1[p], #[trigger] a1[q]) by {
            assert(a1[p] == a[p + 1] && a1[q] == a[q + 1]);
        }
        assert forall|p: int, q: int| 0 <= p < q < b1.len() implies lex_lt(#[trigger] b1[p], #[trigger] b1[q]) by {
            assert(b1[p] == b[p + 1] && b1[q] == b[q + 1]);
        }
        law_sorted_list_is_unique(a1, b1);
        assert(a =~= seq![a[0]] + a1);
        assert(b =~= seq![b[0]] + b1);
    }
}

} // verus!
