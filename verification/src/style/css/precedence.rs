//! What the cascade guarantees: one value per property, taken from the
//! candidate of highest precedence.
use vstd::prelude::*;
use super::stylesheet::{cascade_spec, first_of_each, has_property, insert_sorted, key_ge, sort_by_precedence};

verus! {

/// Candidates in order of precedence, highest first.
pub open spec fn sorted_by_precedence<T>(y: Seq<(String, T, u32, bool)>) -> bool {
    forall|i: int, j: int| 0 <= i < j < y.len() ==> key_ge(#[trigger] y[i], #[trigger] y[j])
}

/// `k` is the first index of `y` whose property is `p`.
pub open spec fn is_first<T>(y: Seq<(String, T, u32, bool)>, p: Seq<char>, k: int) -> bool {
    &&& 0 <= k < y.len()
    &&& y[k].0@ == p
    &&& forall|j: int| 0 <= j < k ==> (#[trigger] y[j]).0@ != p
}

/// Candidate `m` wins property `p`: no candidate for `p` has a higher
/// precedence, and every earlier candidate for `p` has a lower one.
pub open spec fn wins<T>(s: Seq<(String, T, u32, bool)>, p: Seq<char>, m: int) -> bool {
    &&& 0 <= m < s.len()
    &&& s[m].0@ == p
    &&& forall|j: int| 0 <= j < s.len() && (#[trigger] s[j]).0@ == p ==> key_ge(s[m], s[j])
    &&& forall|j: int| 0 <= j < m && (#[trigger] s[j]).0@ == p ==> !key_ge(s[j], s[m])
}

/// `e` is the property and value of the candidate that wins its property.
pub open spec fn winning_value<T>(s: Seq<(String, T, u32, bool)>, e: (String, T)) -> bool {
    exists|m: int| wins(s, e.0@, m) && e == (s[m].0, s[m].1)
}

/// `e` is the property and value of the first entry of `y` for its property.
pub open spec fn first_value<T>(y: Seq<(String, T, u32, bool)>, e: (String, T)) -> bool {
    exists|k: int| is_first(y, e.0@, k) && e == (y[k].0, y[k].1)
}

/// `insert_sorted(u, x)` puts `x` at the position just after the last
/// element whose precedence is at least `x`'s.
proof fn lemma_insert_shape<T>(u: Seq<(String, T, u32, bool)>, x: (String, T, u32, bool)) -> (m: int)
    ensures
        0 <= m <= u.len(),
        insert_sorted(u, x) == u.take(m) + seq![x] + u.skip(m),
        m > 0 ==> key_ge(u[m - 1], x),
        forall|j: int| m <= j < u.len() ==> !key_ge(#[trigger] u[j], x),
    decreases u.len(),
{
    if u.len() == 0 {
        assert(insert_sorted(u, x) =~= u.take(0) + seq![x] + u.skip(0));
        0
    } else if key_ge(u.last(), x) {
        let m = u.len() as int;
        assert(insert_sorted(u, x) =~= u.take(m) + seq![x] + u.skip(m));
        m
    } else {
        let v = u.drop_last();
        let m = lemma_insert_shape(v, x);
        assert(v.take(m) =~= u.take(m));
        assert(v.skip(m).push(u.last()) =~= u.skip(m));
        assert(insert_sorted(u, x) =~= u.take(m) + seq![x] + u.skip(m));
        assert forall|j: int| m <= j < u.len() implies !key_ge(#[trigger] u[j], x) by {
            if j < v.len() {
                assert(u[j] == v[j]);
            }
        }
        m
    }
}

/// Sorting by precedence orders the candidates, keeps them all, and puts
/// first, for each property, the candidate that wins it.
proof fn lemma_sort<T>(s: Seq<(String, T, u32, bool)>)
    ensures
        sort_by_precedence(s).len() == s.len(),
        sorted_by_precedence(sort_by_precedence(s)),
        forall|j: int| 0 <= j < s.len() ==> exists|k: int| 0 <= k < s.len() && sort_by_precedence(s)[k] == #[trigger] s[j],
        forall|p: Seq<char>, k: int| #[trigger] is_first(sort_by_precedence(s), p, k)
            ==> exists|m: int| wins(s, p, m) && s[m] == sort_by_precedence(s)[k],
    decreases s.len(),
{
    if s.len() == 0 {
        return;
    }
    let t = s.drop_last();
    let x = s.last();
    lemma_sort(t);
    let u = sort_by_precedence(t);
    let y = sort_by_precedence(s);
    assert(y == insert_sorted(u, x));
    let m = lemma_insert_shape(u, x);
    assert(y =~= u.take(m) + seq![x] + u.skip(m));
    assert forall|k: int| 0 <= k < y.len() implies (if k < m { y[k] == u[k] } else if k == m { y[k] == x } else { y[k] == u[k - 1] }) by {}
    assert forall|i: int, j: int| 0 <= i < j < y.len() implies key_ge(#[trigger] y[i], #[trigger] y[j]) by {
        if i < m {
            if j < m {
            } else if j == m {
                assert(key_ge(u[i], u[m - 1]) || i == m - 1);
            } else {
                assert(key_ge(u[i], u[j - 1]));
            }
        } else if i == m {
            assert(!key_ge(u[j - 1], x));
        } else {
            assert(key_ge(u[i - 1], u[j - 1]));
        }
    }
    assert forall|j: int| 0 <= j < s.len() implies exists|k: int| 0 <= k < s.len() && y[k] == #[trigger] s[j] by {
        if j == s.len() - 1 {
            assert(y[m] == s[j]);
        } else {
            assert(s[j] == t[j]);
            let k0 = choose|k: int| 0 <= k < t.len() && u[k] == #[trigger] t[j];
            if k0 < m {
                assert(y[k0] == s[j]);
            } else {
                assert(y[k0 + 1] == s[j]);
            }
        }
    }
    assert forall|p: Seq<char>, k: int| #[trigger] is_first(y, p, k) implies exists|mm: int| wins(s, p, mm) && s[mm] == y[k] by {
        if k < m {
            assert(is_first(u, p, k)) by {
                assert forall|j: int| 0 <= j < k implies (#[trigger] u[j]).0@ != p by {
                    assert(y[j] == u[j]);
                }
            }
            let w = choose|w: int| wins(t, p, w) && t[w] == u[k];
            assert(s[w] == t[w]);
            assert forall|j: int| 0 <= j < s.len() && (#[trigger] s[j]).0@ == p implies key_ge(s[w], s[j]) by {
                if j == s.len() - 1 {
                    assert(key_ge(u[k], u[m - 1]) || k == m - 1);
                } else {
                    assert(s[j] == t[j]);
                }
            }
            assert forall|j: int| 0 <= j < w && (#[trigger] s[j]).0@ == p implies !key_ge(s[j], s[w]) by {
                assert(s[j] == t[j]);
            }
            assert(wins(s, p, w));
        } else if k == m {
            let w = s.len() - 1;
            assert(s[w] == x);
            assert forall|j: int| 0 <= j < s.len() && (#[trigger] s[j]).0@ == p implies key_ge(s[w], s[j]) && (j < w ==> !key_ge(s[j], s[w])) by {
                if j < w {
                    assert(s[j] == t[j]);
                    let q = choose|q: int| 0 <= q < t.len() && u[q] == #[trigger] t[j];
                    if q < m {
                        assert(y[q] == u[q]);
                        assert(y[q].0@ != p);
                    }
                    assert(!key_ge(u[q], x));
                }
            }
            assert(wins(s, p, w));
        } else {
            assert(is_first(u, p, k - 1)) by {
                assert forall|j: int| 0 <= j < k - 1 implies (#[trigger] u[j]).0@ != p by {
                    if j < m {
                        assert(y[j] == u[j]);
                    } else {
                        assert(y[j + 1] == u[j]);
                    }
                }
            }
            let w = choose|w: int| wins(t, p, w) && t[w] == u[k - 1];
            assert(s[w] == t[w]);
            assert(y[m].0@ != p);
            assert forall|j: int| 0 <= j < s.len() && (#[trigger] s[j]).0@ == p implies key_ge(s[w], s[j]) by {
                assert(s[j] == t[j]);
            }
            assert forall|j: int| 0 <= j < w && (#[trigger] s[j]).0@ == p implies !key_ge(s[j], s[w]) by {
                assert(s[j] == t[j]);
            }
            assert(wins(s, p, w));
        }
    }
}

/// Keeping the first entry of each property keeps each property once, every
/// property, and for each the entry that comes first.
proof fn lemma_first_of_each<T>(y: Seq<(String, T, u32, bool)>)
    ensures
        forall|i: int, j: int| 0 <= i < j < first_of_each(y).len()
            ==> (#[trigger] first_of_each(y)[i]).0@ != (#[trigger] first_of_each(y)[j]).0@,
        forall|p: Seq<char>| has_property(y, p)
            ==> exists|i: int| 0 <= i < first_of_each(y).len() && (#[trigger] first_of_each(y)[i]).0@ == p,
        forall|i: int| 0 <= i < first_of_each(y).len() ==> first_value(y, #[trigger] first_of_each(y)[i]),
    decreases y.len(),
{
    if y.len() == 0 {
        return;
    }
    let t = y.drop_last();
    let x = y.last();
    lemma_first_of_each(t);
    let f = first_of_each(t);
    assert forall|q: Seq<char>, k: int| is_first(t, q, k) implies is_first(y, q, k) by {
        assert forall|j: int| 0 <= j < k implies (#[trigger] y[j]).0@ != q by {
            assert(y[j] == t[j]);
        }
        assert(y[k] == t[k]);
    }
    assert forall|p: Seq<char>| has_property(y, p) implies has_property(t, p) || x.0@ == p by {
        let i = choose|i: int| 0 <= i < y.len() && (#[trigger] y[i]).0@ == p;
        if i < t.len() {
            assert(t[i] == y[i]);
        }
    }
    let g = first_of_each(y);
    if has_property(t, x.0@) {
        assert(g == f);
        assert forall|i: int| 0 <= i < f.len() implies first_value(y, #[trigger] f[i]) by {
            let k = choose|k: int| is_first(t, f[i].0@, k) && f[i] == (t[k].0, t[k].1);
            assert(is_first(y, f[i].0@, k));
            assert(y[k] == t[k]);
        }
        assert forall|i: int| 0 <= i < g.len() implies first_value(y, #[trigger] g[i]) by {
            assert(g[i] == f[i]);
        }
    } else {
        assert(g == f.push((x.0, x.1)));
        assert forall|i: int| 0 <= i < f.len() implies has_property(t, (#[trigger] f[i]).0@) by {
            let k = choose|k: int| is_first(t, f[i].0@, k) && f[i] == (t[k].0, t[k].1);
            assert(t[k].0@ == f[i].0@);
        }
        assert forall|i: int, j: int| 0 <= i < j < g.len() implies (#[trigger] g[i]).0@ != (#[trigger] g[j]).0@ by {
            assert(g[i] == f[i]);
            if j < f.len() {
                assert(g[j] == f[j]);
            } else {
                assert(has_property(t, f[i].0@));
            }
        }
        assert forall|p: Seq<char>| has_property(y, p) implies exists|i: int| 0 <= i < g.len() && (#[trigger] g[i]).0@ == p by {
            if has_property(t, p) {
                let i = choose|i: int| 0 <= i < f.len() && (#[trigger] f[i]).0@ == p;
                assert(g[i] == f[i]);
            } else {
                assert(g[f.len() as int].0@ == p);
            }
        }
        assert forall|i: int| 0 <= i < g.len() implies first_value(y, #[trigger] g[i]) by {
            if i < f.len() {
                assert(g[i] == f[i]);
                let k = choose|k: int| is_first(t, f[i].0@, k) && f[i] == (t[k].0, t[k].1);
                assert(is_first(y, f[i].0@, k));
                assert(y[k] == t[k]);
            } else {
                let k = y.len() - 1;
                assert forall|j: int| 0 <= j < k implies (#[trigger] y[j]).0@ != x.0@ by {
                    assert(y[j] == t[j]);
                }
                assert(is_first(y, g[i].0@, k));
                assert(y[k] == x);
            }
        }
    }
}

/// The cascade law. Of the candidate values `(property, value,
/// specificity, important)` of a widget, the cascade keeps exactly one
/// value for each property that has a candidate, and no other property;
/// the value kept for a property is that of its winning candidate: the one
/// of highest specificity, `!important` winning among equal specificities,
/// and the earliest winning among candidates that are equal on both.
pub proof fn lemma_cascade_keeps_winners<T>(s: Seq<(String, T, u32, bool)>)
    ensures
        forall|i: int, j: int| 0 <= i < j < cascade_spec(s).len()
            ==> (#[trigger] cascade_spec(s)[i]).0@ != (#[trigger] cascade_spec(s)[j]).0@,
        forall|p: Seq<char>| has_property(s, p)
            <==> exists|i: int| 0 <= i < cascade_spec(s).len() && (#[trigger] cascade_spec(s)[i]).0@ == p,
        forall|i: int| 0 <= i < cascade_spec(s).len() ==> winning_value(s, #[trigger] cascade_spec(s)[i]),
{
    let y = sort_by_precedence(s);
    let r = cascade_spec(s);
    lemma_sort(s);
    lemma_first_of_each(y);
    assert(r == first_of_each(y));
    assert forall|i: int| 0 <= i < r.len() implies winning_value(s, #[trigger] r[i]) by {
        let k = choose|k: int| is_first(y, r[i].0@, k) && r[i] == (y[k].0, y[k].1);
        assert(is_first(y, r[i].0@, k));
        let m = choose|m: int| wins(s, r[i].0@, m) && s[m] == y[k];
        assert(wins(s, r[i].0@, m) && r[i] == (s[m].0, s[m].1));
    }
    assert forall|p: Seq<char>| has_property(s, p) implies exists|i: int| 0 <= i < r.len() && (#[trigger] r[i]).0@ == p by {
        let j = choose|j: int| 0 <= j < s.len() && (#[trigger] s[j]).0@ == p;
        let k = choose|k: int| 0 <= k < s.len() && y[k] == #[trigger] s[j];
        assert(has_property(y, p));
    }
    assert forall|p: Seq<char>| (exists|i: int| 0 <= i < r.len() && (#[trigger] r[i]).0@ == p) implies has_property(s, p) by {
        let i = choose|i: int| 0 <= i < r.len() && (#[trigger] r[i]).0@ == p;
        let m = choose|m: int| wins(s, r[i].0@, m) && r[i] == (s[m].0, s[m].1);
        assert(s[m].0@ == p);
    }
}

} // verus!
