//! Ordering of the name lists the menus show: graphs, patchers, data files
//! (by their bytes, as `str` orders them) and presets ("initial" first, then
//! the rest without regard to case).
use vstd::prelude::*;
use vstd::multiset::Multiset;

verus! {

/// Lexicographic order of byte strings, a proper prefix coming first.
pub open spec fn bytes_lt(a: Seq<u8>, b: Seq<u8>) -> bool
    decreases a.len(),
{
    if b.len() == 0 {
        false
    } else if a.len() == 0 {
        true
    } else if a[0] < b[0] {
        true
    } else if a[0] > b[0] {
        false
    } else {
        bytes_lt(a.drop_first(), b.drop_first())
    }
}

/// The order is asymmetric.
pub proof fn lemma_bytes_lt_asym(a: Seq<u8>, b: Seq<u8>)
    ensures
        bytes_lt(a, b) ==> !bytes_lt(b, a),
    decreases a.len(),
{
    if a.len() > 0 && b.len() > 0 && a[0] == b[0] {
        lemma_bytes_lt_asym(a.drop_first(), b.drop_first());
    }
}

/// The order is irreflexive.
pub proof fn lemma_bytes_lt_irrefl(a: Seq<u8>)
    ensures
        !bytes_lt(a, a),
    decreases a.len(),
{
    if a.len() > 0 {
        lemma_bytes_lt_irrefl(a.drop_first());
    }
}

/// Whether `a` comes strictly before `b` in byte order.
pub fn less_bytes(a: &[u8], b: &[u8]) -> (r: bool)
    ensures
        r == bytes_lt(a@, b@),
{
    let n = a.len();
    let m = b.len();
    let mut i: usize = 0;
    assert(a@.skip(0) =~= a@);
    assert(b@.skip(0) =~= b@);
    while i < n && i < m && a[i] == b[i]
        invariant
            n == a@.len(),
            m == b@.len(),
            0 <= i <= n,
            i <= m,
            bytes_lt(a@, b@) == bytes_lt(a@.skip(i as int), b@.skip(i as int)),
        decreases n - i,
    {
        assert(a@.skip(i as int).drop_first() =~= a@.skip(i + 1));
        assert(b@.skip(i as int).drop_first() =~= b@.skip(i + 1));
        i = i + 1;
    }
    if i == m {
        false
    } else if i == n {
        true
    } else {
        a[i] < b[i]
    }
}

/// The UTF-8 bytes of a name.
pub open spec fn name_bytes(s: Seq<char>) -> Seq<u8> {
    vstd::utf8::encode_utf8(s)
}

/// The two orders the menus sort by.
#[derive(Copy, Clone, Debug, PartialEq, Eq, Structural)]
pub enum Order {
    /// By the UTF-8 bytes of the names.
    Bytes,
    /// "initial" first, then by the UTF-8 bytes of the case-folded names.
    Presets,
}

/// The case folding of `s` done by `unicase`.
pub uninterp spec fn case_fold(s: Seq<char>) -> Seq<char>;

/// `UniCase::new(s).to_folded_case()`: the string with its case folded (ASCII
/// lowercase for an ASCII string, Unicode case folding otherwise). Its
/// contract names the result as a function of `s` alone.
#[verifier::external_body]
fn folded(s: &str) -> (r: String)
    ensures
        r@ == case_fold(s@),
{
    unicase::UniCase::new(s).to_folded_case()
}

/// The preset that is loaded first.
pub open spec fn is_initial(s: Seq<char>) -> bool {
    s == "initial"@
}

/// Name `a` comes strictly before name `b` under `order`. `unicase` compares
/// folded names char by char; UTF-8 keeps the order of chars, so comparing
/// their bytes gives the same order.
pub open spec fn order_lt(order: Order, a: Seq<char>, b: Seq<char>) -> bool {
    match order {
        Order::Bytes => bytes_lt(name_bytes(a), name_bytes(b)),
        Order::Presets => if is_initial(a) {
            !is_initial(b)
        } else if is_initial(b) {
            false
        } else {
            bytes_lt(name_bytes(case_fold(a)), name_bytes(case_fold(b)))
        },
    }
}

/// The order is asymmetric.
pub proof fn lemma_order_asym(order: Order, a: Seq<char>, b: Seq<char>)
    ensures
        order_lt(order, a, b) ==> !order_lt(order, b, a),
{
    lemma_bytes_lt_asym(name_bytes(a), name_bytes(b));
    lemma_bytes_lt_asym(name_bytes(case_fold(a)), name_bytes(case_fold(b)));
}

fn is_initial_name(s: &String) -> (r: bool)
    ensures
        r == is_initial(s@),
{
    let initial = "initial".to_owned();
    *s == initial
}

/// Byte order is transitive.
pub proof fn lemma_bytes_lt_trans(a: Seq<u8>, b: Seq<u8>, c: Seq<u8>)
    requires
        bytes_lt(a, b),
        bytes_lt(b, c),
    ensures
        bytes_lt(a, c),
    decreases a.len(),
{
    if a.len() > 0 && b.len() > 0 && c.len() > 0 && a[0] == b[0] && b[0] == c[0] {
        lemma_bytes_lt_trans(a.drop_first(), b.drop_first(), c.drop_first());
    }
}

/// What a name is ranked by under `order`: for presets whether it is other
/// than "initial", then the bytes compared.
pub open spec fn sort_key(order: Order, s: Seq<char>) -> (bool, Seq<u8>) {
    match order {
        Order::Bytes => (false, name_bytes(s)),
        Order::Presets => if is_initial(s) {
            (false, Seq::empty())
        } else {
            (true, name_bytes(case_fold(s)))
        },
    }
}

/// Strict order of sort keys.
pub open spec fn key_lt(a: (bool, Seq<u8>), b: (bool, Seq<u8>)) -> bool {
    (!a.0 && b.0) || (a.0 == b.0 && bytes_lt(a.1, b.1))
}

/// `order_lt` compares the sort keys alone.
pub proof fn lemma_order_key(order: Order, a: Seq<char>, b: Seq<char>)
    ensures
        order_lt(order, a, b) == key_lt(sort_key(order, a), sort_key(order, b)),
{
}

/// The order is transitive.
pub proof fn lemma_order_trans(order: Order, a: Seq<char>, b: Seq<char>, c: Seq<char>)
    requires
        order_lt(order, a, b),
        order_lt(order, b, c),
    ensures
        order_lt(order, a, c),
{
    lemma_order_key(order, a, b);
    lemma_order_key(order, b, c);
    lemma_order_key(order, a, c);
    let (ka, kb, kc) = (sort_key(order, a), sort_key(order, b), sort_key(order, c));
    if ka.0 == kb.0 && kb.0 == kc.0 {
        lemma_bytes_lt_trans(ka.1, kb.1, kc.1);
    }
}

/// The names whose sort key under `order` is `key`.
pub open spec fn has_key(order: Order, key: (bool, Seq<u8>)) -> spec_fn(String) -> bool {
    |y: String| sort_key(order, y@) == key
}

/// Names that rank the same keep, in `out`, the order they have in `v`.
pub open spec fn ties_kept(order: Order, out: Seq<String>, v: Seq<String>) -> bool {
    forall|key: (bool, Seq<u8>)| #[trigger] out.filter(has_key(order, key)) == v.filter(has_key(order, key))
}

/// Inserting `x` at `k`, before every name that ranks above it and after
/// every other, adds `x` at the end of its rank.
proof fn lemma_insert_filter(order: Order, o: Seq<String>, k: int, x: String, key: (bool, Seq<u8>))
    requires
        0 <= k <= o.len(),
        forall|j: int| k <= j < o.len() ==> sort_key(order, (#[trigger] o[j])@) != sort_key(order, x@),
    ensures
        o.insert(k, x).filter(has_key(order, key)) == o.filter(has_key(order, key)) + (if sort_key(order, x@) == key {
            seq![x]
        } else {
            Seq::empty()
        }),
{
    let p = has_key(order, key);
    let tail = o.skip(k);
    assert(o.insert(k, x) =~= o.take(k) + (seq![x] + tail));
    assert(o =~= o.take(k) + tail);
    Seq::filter_distributes_over_add(o.take(k), seq![x] + tail, p);
    Seq::filter_distributes_over_add(o.take(k), tail, p);
    tail.lemma_filter_prepend(x, p);
    if sort_key(order, x@) == key {
        assert forall|j: int| 0 <= j < tail.len() implies !p(#[trigger] tail[j]) by {
            assert(tail[j] == o[k + j]);
        }
        tail.lemma_all_neg_filter_empty(p);
        assert(tail.filter(p) =~= Seq::<String>::empty());
        assert(o.take(k).filter(p) + (seq![x] + Seq::<String>::empty()) =~= o.take(k).filter(p) + seq![x]);
        assert(o.take(k).filter(p) + Seq::<String>::empty() =~= o.take(k).filter(p));
    } else {
        assert(Seq::<String>::empty() + tail.filter(p) =~= tail.filter(p));
        assert(o.filter(p) + Seq::<String>::empty() =~= o.filter(p));
    }
}

/// Whether name `a` comes strictly before name `b` under `order`.
pub fn less(order: Order, a: &String, b: &String) -> (r: bool)
    ensures
        r == order_lt(order, a@, b@),
{
    match order {
        Order::Bytes => less_bytes(a.as_str().as_bytes(), b.as_str().as_bytes()),
        Order::Presets => {
            if is_initial_name(a) {
                !is_initial_name(b)
            } else if is_initial_name(b) {
                false
            } else {
                let fa = folded(a.as_str());
                let fb = folded(b.as_str());
                less_bytes(fa.as_str().as_bytes(), fb.as_str().as_bytes())
            }
        },
    }
}

/// The neighbours at `i` and `i + 1` are in order.
pub open spec fn in_order_at(order: Order, s: Seq<String>, i: int) -> bool {
    !order_lt(order, s[i + 1]@, s[i]@)
}

/// No neighbours are out of order.
pub open spec fn sorted_by(order: Order, s: Seq<String>) -> bool {
    forall|i: int| 0 <= i < s.len() - 1 ==> #[trigger] in_order_at(order, s, i)
}

/// The names sorted under `order`: the same names, no two neighbours out of
/// order, and names that rank the same in the order they came (a stable sort).
pub fn sort_by(order: Order, v: Vec<String>) -> (out: Vec<String>)
    ensures
        out@.to_multiset() == v@.to_multiset(),
        sorted_by(order, out@),
        ties_kept(order, out@, v@),
{
    broadcast use vstd::seq_lib::group_to_multiset_ensures, vstd::multiset::group_multiset_axioms;

    let ghost orig = v@;
    let mut rest = v;
    let mut out: Vec<String> = Vec::new();
    proof {
        assert(rest@ =~= orig);
        assert forall|key: (bool, Seq<u8>)| #[trigger] out@.filter(has_key(order, key)) + rest@.filter(
            has_key(order, key),
        ) == orig.filter(has_key(order, key)) by {
            out@.lemma_all_neg_filter_empty(has_key(order, key));
            assert(out@.filter(has_key(order, key)) =~= Seq::<String>::empty());
            assert(Seq::<String>::empty() + orig.filter(has_key(order, key)) =~= orig.filter(
                has_key(order, key),
            ));
        }
    }
    while rest.len() > 0
        invariant
            out@.to_multiset().add(rest@.to_multiset()) == orig.to_multiset(),
            forall|i: int, j: int|
                0 <= i < j < out@.len() ==> !order_lt(order, (#[trigger] out@[j])@, (#[trigger] out@[i])@),
            forall|key: (bool, Seq<u8>)| #[trigger] out@.filter(has_key(order, key)) + rest@.filter(
                has_key(order, key),
            ) == orig.filter(has_key(order, key)),
        decreases rest@.len(),
    {
        let ghost r0 = rest@;
        let x = rest.remove(0);
        proof {
            vstd::seq_lib::to_multiset_remove(r0, 0);
            assert(rest@ == r0.remove(0));
            assert(r0 =~= seq![x] + rest@);
        }
        let mut k: usize = 0;
        let mut stop = false;
        while !stop && k < out.len()
            invariant
                0 <= k <= out@.len(),
                forall|j: int| 0 <= j < k ==> !order_lt(order, x@, (#[trigger] out@[j])@),
                stop ==> (k < out@.len() && order_lt(order, x@, out@[k as int]@)),
            decreases out@.len() - k + (if stop { 0int } else { 1int }),
        {
            if less(order, &x, &out[k]) {
                stop = true;
            } else {
                k = k + 1;
            }
        }
        let ghost o0 = out@;
        proof {
            assert forall|j: int| k <= j < o0.len() implies sort_key(order, (#[trigger] o0[j])@)
                != sort_key(order, x@) && !order_lt(order, o0[j]@, x@) by {
                lemma_order_key(order, x@, o0[k as int]@);
                lemma_order_key(order, o0[j]@, o0[k as int]@);
                lemma_order_asym(order, x@, o0[k as int]@);
                lemma_bytes_lt_irrefl(sort_key(order, x@).1);
                if order_lt(order, o0[j]@, x@) {
                    lemma_order_trans(order, o0[j]@, x@, o0[k as int]@);
                }
            }
        }
        out.insert(k, x);
        proof {
            vstd::seq_lib::to_multiset_insert(o0, k as int, x);
            assert(out@ == o0.insert(k as int, x));
            assert forall|i: int, j: int| 0 <= i < j < out@.len() implies !order_lt(
                order,
                (#[trigger] out@[j])@,
                (#[trigger] out@[i])@,
            ) by {
                if j < k {
                    assert(out@[j] == o0[j] && out@[i] == o0[i]);
                } else if j == k {
                    assert(out@[j] == x && out@[i] == o0[i]);
                } else if i == k {
                    assert(out@[j] == o0[j - 1] && out@[i] == x);
                } else if i < k {
                    assert(out@[j] == o0[j - 1] && out@[i] == o0[i]);
                } else {
                    assert(out@[j] == o0[j - 1] && out@[i] == o0[i - 1]);
                }
            }
            assert forall|key: (bool, Seq<u8>)| #[trigger] out@.filter(has_key(order, key))
                + rest@.filter(has_key(order, key)) == orig.filter(has_key(order, key)) by {
                lemma_insert_filter(order, o0, k as int, x, key);
                rest@.lemma_filter_prepend(x, has_key(order, key));
                let p = has_key(order, key);
                if sort_key(order, x@) == key {
                    assert(o0.filter(p) + seq![x] + rest@.filter(p) =~= o0.filter(p) + (seq![x]
                        + rest@.filter(p)));
                } else {
                    assert(o0.filter(p) + Seq::<String>::empty() =~= o0.filter(p));
                    assert(Seq::<String>::empty() + rest@.filter(p) =~= rest@.filter(p));
                }
            }
            assert(r0[0] == x);
            assert(r0.contains(x));
            vstd::seq_lib::to_multiset_contains(r0, x);
            assert(out@.to_multiset().add(rest@.to_multiset()) =~= orig.to_multiset());
        }
    }
    proof {
        assert(rest@.to_multiset() =~= Multiset::<String>::empty());
        assert(out@.to_multiset().add(Multiset::<String>::empty()) =~= out@.to_multiset());
        assert forall|i: int| 0 <= i < out@.len() - 1 implies #[trigger] in_order_at(order, out@, i) by {
            assert(!order_lt(order, out@[i + 1]@, out@[i]@));
        }
        assert forall|key: (bool, Seq<u8>)| #[trigger] out@.filter(has_key(order, key)) == orig.filter(
            has_key(order, key),
        ) by {
            rest@.lemma_all_neg_filter_empty(has_key(order, key));
            assert(rest@.filter(has_key(order, key)) =~= Seq::<String>::empty());
            assert(out@.filter(has_key(order, key)) + Seq::<String>::empty() =~= out@.filter(
                has_key(order, key),
            ));
        }
    }
    out
}

} // verus!
