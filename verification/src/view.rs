//! Parameter views: named lists of parameters, each given as an instance
//! index and a parameter index, written `"instance:param"` by the runner.
use vstd::prelude::*;
use vstd::string::StringSliceAdditionalSpecFns;

verus! {

/// The byte of an ASCII decimal digit.
pub open spec fn is_digit_byte(b: u8) -> bool {
    48 <= b <= 57
}

/// The bytes after an optional leading `+`.
pub open spec fn unsigned_part(s: Seq<u8>) -> Seq<u8> {
    if s.len() > 0 && s[0] == 43 {
        s.drop_first()
    } else {
        s
    }
}

/// Every byte is a digit.
pub open spec fn all_digits(d: Seq<u8>) -> bool {
    forall|i: int| 0 <= i < d.len() ==> is_digit_byte(#[trigger] d[i])
}

/// The number that a string of digit bytes spells.
pub open spec fn digits_value(s: Seq<u8>) -> nat
    decreases s.len(),
{
    if s.len() == 0 {
        0
    } else {
        digits_value(s.drop_last()) * 10 + (s.last() - 48) as nat
    }
}

/// What `str::parse::<usize>` gives for these bytes: an optional `+`, then
/// one or more digits whose value fits in `usize`.
pub open spec fn spec_parse_usize(s: Seq<u8>) -> Option<usize> {
    let d = unsigned_part(s);
    if d.len() > 0 && all_digits(d) && digits_value(d) <= usize::MAX {
        Some(digits_value(d) as usize)
    } else {
        None
    }
}

/// Position of the first `:` in `s`, or its length when there is none.
pub open spec fn colon_pos(s: Seq<u8>) -> nat
    decreases s.len(),
{
    if s.len() == 0 {
        0
    } else if s[0] == 58 {
        0
    } else {
        1 + colon_pos(s.drop_first())
    }
}

/// The first two `:`-separated pieces of `s` read as numbers; anything after
/// a second `:` is ignored.
pub open spec fn spec_parse_pair(s: Seq<u8>) -> Option<(usize, usize)> {
    let i = colon_pos(s);
    if i >= s.len() {
        None
    } else {
        let rest = s.skip(i as int + 1);
        match (spec_parse_usize(s.take(i as int)), spec_parse_usize(rest.take(colon_pos(rest) as int))) {
            (Some(a), Some(b)) => Some((a, b)),
            _ => None,
        }
    }
}

proof fn lemma_digits_prefix(s: Seq<u8>, i: int)
    requires
        0 <= i <= s.len(),
    ensures
        digits_value(s.take(i)) <= digits_value(s),
    decreases s.len() - i,
{
    if i < s.len() {
        lemma_digits_prefix(s, i + 1);
        assert(s.take(i + 1).drop_last() =~= s.take(i));
    } else {
        assert(s.take(i) =~= s);
    }
}

proof fn lemma_colon_pos_bound(s: Seq<u8>)
    ensures
        colon_pos(s) <= s.len(),
    decreases s.len(),
{
    if s.len() > 0 {
        lemma_colon_pos_bound(s.drop_first());
    }
}

fn colon_index(b: &[u8]) -> (i: usize)
    ensures
        i == colon_pos(b@),
        i <= b@.len(),
{
    let n = b.len();
    let mut i: usize = 0;
    assert(b@.skip(0) =~= b@);
    while i < n && b[i] != 58
        invariant
            n == b@.len(),
            0 <= i <= n,
            colon_pos(b@) == i + colon_pos(b@.skip(i as int)),
        decreases n - i,
    {
        assert(b@.skip(i as int).drop_first() =~= b@.skip(i + 1));
        i = i + 1;
    }
    proof {
        lemma_colon_pos_bound(b@.skip(i as int));
    }
    i
}

/// The number spelt by the bytes, as `str::parse::<usize>` reads it.
pub fn parse_usize(s: &[u8]) -> (r: Option<usize>)
    ensures
        r == spec_parse_usize(s@),
{
    let n = s.len();
    let start: usize = if n > 0 && s[0] == 43 {
        1
    } else {
        0
    };
    let ghost d = unsigned_part(s@);
    assert(d =~= s@.skip(start as int));
    if start >= n {
        return None;
    }
    let mut acc: usize = 0;
    let mut i: usize = start;
    assert(d.take(0) =~= Seq::<u8>::empty());
    while i < n
        invariant
            n == s@.len(),
            start <= i <= n,
            d == s@.skip(start as int),
            d == unsigned_part(s@),
            d.len() > 0,
            forall|j: int| 0 <= j < i - start ==> is_digit_byte(#[trigger] d[j]),
            acc == digits_value(d.take(i - start)),
        decreases n - i,
    {
        let c = s[i];
        let ghost k = i - start;
        assert(d[k] == s@[i as int]);
        if c < 48 || c > 57 {
            assert(!is_digit_byte(d[k]));
            return None;
        }
        assert(d.take(k + 1).drop_last() =~= d.take(k));
        assert(d.take(k + 1).last() == c);
        assert(digits_value(d.take(k + 1)) == acc * 10 + (c - 48) as nat);
        match acc.checked_mul(10) {
            None => {
                proof {
                    lemma_digits_prefix(d, k + 1);
                }
                return None;
            },
            Some(m) => match m.checked_add((c - 48) as usize) {
                None => {
                    proof {
                        lemma_digits_prefix(d, k + 1);
                    }
                    return None;
                },
                Some(v) => {
                    acc = v;
                },
            },
        }
        i = i + 1;
    }
    assert(d.take(n - start) =~= d);
    Some(acc)
}

/// A named list of parameters, with the runner's index of the view.
pub struct ParamView {
    name: String,
    params: Vec<(usize, usize)>,
    index: usize,
}

impl ParamView {
    pub closed spec fn spec_name(&self) -> Seq<char> {
        self.name@
    }

    pub closed spec fn spec_params(&self) -> Seq<(usize, usize)> {
        self.params@
    }

    pub closed spec fn spec_index(&self) -> usize {
        self.index
    }

    pub fn new(name: String, params: Vec<(usize, usize)>, index: usize) -> (v: Self)
        ensures
            v.spec_name() == name@,
            v.spec_params() == params@,
            v.spec_index() == index,
    {
        ParamView { name, params, index }
    }

    pub fn index(&self) -> (i: usize)
        ensures
            i == self.spec_index(),
    {
        self.index
    }

    pub fn name(&self) -> (s: &str)
        ensures
            s@ == self.spec_name(),
    {
        self.name.as_str()
    }

    pub fn set_name(&mut self, name: String)
        ensures
            final(self).spec_name() == name@,
            final(self).spec_params() == old(self).spec_params(),
            final(self).spec_index() == old(self).spec_index(),
    {
        self.name = name;
    }

    pub fn params(&self) -> (p: &Vec<(usize, usize)>)
        ensures
            p@ == self.spec_params(),
    {
        &self.params
    }

    pub fn set_params(&mut self, params: Vec<(usize, usize)>)
        ensures
            final(self).spec_params() == params@,
            final(self).spec_name() == old(self).spec_name(),
            final(self).spec_index() == old(self).spec_index(),
    {
        self.params = params;
    }

    /// Reads `"instance:param"`; `Err` unless both pieces are numbers.
    pub fn parse_param_s(v: &str) -> (r: Result<(usize, usize), ()>)
        ensures
            r == match spec_parse_pair(v.spec_bytes()) {
                Some(p) => Ok::<(usize, usize), ()>(p),
                None => Err(()),
            },
    {
        let b = v.as_bytes();
        let n = b.len();
        let i = colon_index(b);
        if i >= n {
            return Err(());
        }
        let first = parse_usize(&b[0..i]);
        assert(b@.subrange(0, i as int) =~= b@.take(i as int));
        let rest = &b[i + 1..n];
        assert(rest@ =~= b@.skip(i + 1));
        let j = colon_index(rest);
        let second = parse_usize(&rest[0..j]);
        assert(rest@.subrange(0, j as int) =~= rest@.take(j as int));
        match (first, second) {
            (Some(a), Some(c)) => Ok((a, c)),
            _ => Err(()),
        }
    }

    /// The view as its index, name and parameters.
    pub open spec fn summary(&self) -> (usize, Seq<char>, Seq<(usize, usize)>) {
        (self.spec_index(), self.spec_name(), self.spec_params())
    }

    /// Views from the runner's list entries: the view's index, its name, and
    /// its parameter strings. An entry with a parameter string that does not
    /// read is left out.
    pub fn from_entries(entries: Vec<(usize, String, Vec<String>)>) -> (views: Vec<ParamView>)
        ensures
            views@.map_values(|v: ParamView| v.summary()) == spec_views(
                entries@.map_values(|e: (usize, String, Vec<String>)| (e.0, e.1@, e.2@)),
            ),
    {
        let ghost es = entries@.map_values(|e: (usize, String, Vec<String>)| (e.0, e.1@, e.2@));
        let mut views: Vec<ParamView> = Vec::new();
        let mut k: usize = 0;
        let n = entries.len();
        while k < n
            invariant
                n == entries@.len(),
                k <= n,
                es == entries@.map_values(|e: (usize, String, Vec<String>)| (e.0, e.1@, e.2@)),
                views@.map_values(|v: ParamView| v.summary()) == spec_views(es.take(k as int)),
            decreases n - k,
        {
            let (index, name, strs) = &entries[k];
            let parsed = parse_list(strs);
            assert(es.take(k + 1).drop_last() =~= es.take(k as int));
            let ghost before = views@;
            match parsed {
                Some(params) => {
                    let v = ParamView { name: name.clone(), params, index: *index };
                    views.push(v);
                    assert(views@.map_values(|v: ParamView| v.summary()) =~= before.map_values(
                        |v: ParamView| v.summary(),
                    ).push(v.summary()));
                },
                None => {},
            }
            k = k + 1;
        }
        assert(es.take(n as int) =~= es);
        views
    }
}

/// The parameter strings read in order, or `None` when one does not read.
pub open spec fn spec_parse_list(strs: Seq<String>) -> Option<Seq<(usize, usize)>>
    decreases strs.len(),
{
    if strs.len() == 0 {
        Some(Seq::empty())
    } else {
        match (spec_parse_list(strs.drop_last()), spec_parse_pair(vstd::utf8::encode_utf8(strs.last()@))) {
            (Some(ps), Some(p)) => Some(ps.push(p)),
            _ => None,
        }
    }
}

/// The views made from entries (index, name, parameter strings), leaving out
/// the entries whose strings do not all read.
pub open spec fn spec_views(entries: Seq<(usize, Seq<char>, Seq<String>)>) -> Seq<(usize, Seq<char>, Seq<(usize, usize)>)>
    decreases entries.len(),
{
    if entries.len() == 0 {
        Seq::empty()
    } else {
        let e = entries.last();
        let before = spec_views(entries.drop_last());
        match spec_parse_list(e.2) {
            Some(ps) => before.push((e.0, e.1, ps)),
            None => before,
        }
    }
}

fn parse_list(strs: &Vec<String>) -> (r: Option<Vec<(usize, usize)>>)
    ensures
        match spec_parse_list(strs@) {
            Some(ps) => r is Some && r->0@ == ps,
            None => r is None,
        },
{
    let mut params: Vec<(usize, usize)> = Vec::new();
    let mut j: usize = 0;
    let n = strs.len();
    while j < n
        invariant
            n == strs@.len(),
            j <= n,
            spec_parse_list(strs@.take(j as int)) == Some(params@),
        decreases n - j,
    {
        assert(strs@.take(j + 1).drop_last() =~= strs@.take(j as int));
        match ParamView::parse_param_s(strs[j].as_str()) {
            Ok(p) => params.push(p),
            Err(_) => {
                proof {
                    lemma_parse_list_fails(strs@, j as int + 1);
                }
                return None;
            },
        }
        j = j + 1;
    }
    assert(strs@.take(n as int) =~= strs@);
    Some(params)
}

proof fn lemma_parse_list_fails(strs: Seq<String>, i: int)
    requires
        0 < i <= strs.len(),
        spec_parse_list(strs.take(i)) is None,
    ensures
        spec_parse_list(strs) is None,
    decreases strs.len() - i,
{
    if i < strs.len() {
        assert(strs.take(i + 1).drop_last() =~= strs.take(i));
        lemma_parse_list_fails(strs, i + 1);
    } else {
        assert(strs.take(i) =~= strs);
    }
}

} // verus!
