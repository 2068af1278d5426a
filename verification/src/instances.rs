//! The loaded patcher instances, their parameters and datarefs, and the
//! lists of them that the menus show.
use vstd::prelude::*;
use vstd::multiset::Multiset;
use vstd::string::{StrSliceExecFns, StringExecFns};
use crate::commands::dataref_addr;
use crate::context::CommonContext;
use crate::controller::Controller;
use crate::views::Views;
use crate::events::Events;
use crate::nav::{param_pages, spec_param_pages};
use crate::text::{concat, decimal, decimal_string};

verus! {

/// A parameter of an instance, as far as the menus need it.
pub struct ParamRef {
    /// The runner's index of the instance the parameter belongs to.
    pub instance_index: usize,
    /// The parameter's index within its instance.
    pub index: usize,
    pub name: String,
    /// The OSC address of the parameter's value.
    pub addr: String,
    /// The OSC address of the parameter's normalized value.
    pub addr_norm: String,
    pub hidden: bool,
}

impl Clone for ParamRef {
    fn clone(&self) -> (r: Self)
        ensures
            r == *self,
    {
        ParamRef {
            instance_index: self.instance_index,
            index: self.index,
            name: self.name.clone(),
            addr: self.addr.clone(),
            addr_norm: self.addr_norm.clone(),
            hidden: self.hidden,
        }
    }
}

/// What separates an instance's address from a parameter's name.
pub const PARAMS_SEP: &'static str = "/params/";

/// What ends the address of a parameter's normalized value.
pub const NORMALIZED_SUFFIX: &'static str = "/normalized";

/// `pat` occurs in `s` at `i`.
pub open spec fn occurs_at(s: Seq<char>, pat: Seq<char>, i: int) -> bool {
    0 <= i && i + pat.len() <= s.len() && s.subrange(i, i + pat.len()) == pat
}

/// The first place, from `i` on, where `pat` occurs in `s`.
pub open spec fn find_from(s: Seq<char>, pat: Seq<char>, i: int) -> Option<int>
    decreases s.len() + 1 - i,
{
    if i < 0 || i + pat.len() > s.len() {
        None
    } else if occurs_at(s, pat, i) {
        Some(i)
    } else {
        find_from(s, pat, i + 1)
    }
}

proof fn lemma_find_from(s: Seq<char>, pat: Seq<char>, i: int)
    ensures
        find_from(s, pat, i) matches Some(k) ==> i <= k && occurs_at(s, pat, k),
    decreases s.len() + 1 - i,
{
    if !(i < 0 || i + pat.len() > s.len()) && !occurs_at(s, pat, i) {
        lemma_find_from(s, pat, i + 1);
    }
}

/// A parameter's name in its address: what follows the first "/params/", up
/// to the next one if there is one (the second piece of the address split at
/// "/params/").
pub open spec fn param_name_of(addr: Seq<char>) -> Option<Seq<char>> {
    match find_from(addr, PARAMS_SEP@, 0) {
        Some(i) => {
            let rest = addr.skip(i + PARAMS_SEP@.len());
            match find_from(rest, PARAMS_SEP@, 0) {
                Some(j) => Some(rest.take(j)),
                None => Some(rest),
            }
        },
        None => None,
    }
}

/// The first place, from `i` on, where `pat` occurs in `s`.
fn find_str(s: &str, pat: &str, i: usize) -> (r: Option<usize>)
    ensures
        match r {
            Some(k) => find_from(s@, pat@, i as int) == Some(k as int),
            None => find_from(s@, pat@, i as int) is None,
        },
{
    let n = s.unicode_len();
    let m = pat.unicode_len();
    let mut k = i;
    while k <= n && m <= n - k
        invariant
            n == s@.len(),
            m == pat@.len(),
            i <= k,
            find_from(s@, pat@, i as int) == find_from(s@, pat@, k as int),
        decreases n + 1 - k,
    {
        let piece = s.substring_char(k, k + m).to_owned();
        if piece == pat.to_owned() {
            assert(occurs_at(s@, pat@, k as int));
            return Some(k);
        }
        assert(!occurs_at(s@, pat@, k as int));
        assert(m > 0) by {
            if m == 0 {
                assert(piece@ =~= pat@);
            }
        }
        k = k + 1;
    }
    None
}

/// A parameter's name in its address and the address of its normalized
/// value; none when the address holds no "/params/".
pub fn param_names(addr: &str) -> (r: Option<(String, String)>)
    ensures
        match r {
            Some((name, norm)) => param_name_of(addr@) == Some(name@) && norm@ == addr@ + NORMALIZED_SUFFIX@,
            None => param_name_of(addr@) is None,
        },
{
    let i = match find_str(addr, PARAMS_SEP, 0) {
        Some(i) => i,
        None => return None,
    };
    proof {
        lemma_find_from(addr@, PARAMS_SEP@, 0);
    }
    let n = addr.unicode_len();
    let sep = PARAMS_SEP.unicode_len();
    proof {
        reveal_strlit("/params/");
    }
    let rest = addr.substring_char(i + sep, n);
    assert(rest@ =~= addr@.skip(i + PARAMS_SEP@.len()));
    proof {
        lemma_find_from(rest@, PARAMS_SEP@, 0);
    }
    let name = match find_str(rest, PARAMS_SEP, 0) {
        Some(j) => rest.substring_char(0, j).to_owned(),
        None => rest.to_owned(),
    };
    proof {
        if let Some(j) = find_from(rest@, PARAMS_SEP@, 0) {
            assert(rest@.subrange(0, j) =~= rest@.take(j));
        }
    }
    let norm = concat(addr, NORMALIZED_SUFFIX);
    Some((name, norm))
}

/// A dataref of an instance and the file mapped to it.
pub struct DatarefRef {
    pub name: String,
    pub mapping: Option<String>,
    pub hidden: bool,
}

/// A loaded patcher instance.
pub struct Instance {
    /// The runner's index of the instance.
    pub index: usize,
    /// The patcher's name.
    pub name: String,
    pub alias: Option<String>,
    pub params: Vec<ParamRef>,
    /// The datarefs, ordered by name.
    pub datarefs: Vec<DatarefRef>,
    /// The names of the datarefs that are not hidden.
    pub visible_datarefs: Vec<String>,
}

/// The instances and the lists derived from them.
pub struct InstanceBook {
    /// The instances, ordered by the runner's index.
    pub instances: Vec<Instance>,
    /// The parameters of all instances, in instance order.
    pub params: Vec<ParamRef>,
    /// For each instance listed under "Device Params", its visible parameters
    /// (indexes into `params`).
    pub instance_params: Vec<Vec<usize>>,
    /// (instance index, parameter index) of each visible parameter to
    /// (position in the "Device Params" list, position among the instance's
    /// visible parameters), as the instances were taken; the last entry for
    /// a key counts.
    pub instance_param_map: Vec<((usize, usize), (usize, usize))>,
    /// Runner instance index to display name; the last entry counts.
    pub alias_map: Vec<(usize, String)>,
    /// Dataref address to (position in `instances`, dataref name); the last
    /// entry for an address counts. It is only ever added to.
    pub dataref_lookup: Vec<(String, (usize, String))>,
    /// Dataref meta address to (position in `instances`, dataref name).
    pub dataref_meta_lookup: Vec<(String, (usize, String))>,
    pub params_instance_names: Vec<String>,
    pub datarefs_instance_names: Vec<String>,
    /// Positions in `instances` of the instances listed under "Device Params".
    pub params_instance_indexes: Vec<usize>,
    /// Positions in `instances` of the instances listed under "Device Data".
    pub datarefs_instance_indexes: Vec<usize>,
}

impl InstanceBook {
    pub fn new() -> (b: Self)
        ensures
            b.instances@.len() == 0,
            b.params@.len() == 0,
            b.instance_params@.len() == 0,
            b.instance_param_map@.len() == 0,
            b.alias_map@.len() == 0,
            b.dataref_lookup@.len() == 0,
            b.dataref_meta_lookup@.len() == 0,
            b.params_instance_names@.len() == 0,
            b.datarefs_instance_names@.len() == 0,
            b.params_instance_indexes@.len() == 0,
            b.datarefs_instance_indexes@.len() == 0,
    {
        InstanceBook {
            instances: Vec::new(),
            params: Vec::new(),
            instance_params: Vec::new(),
            instance_param_map: Vec::new(),
            alias_map: Vec::new(),
            dataref_lookup: Vec::new(),
            dataref_meta_lookup: Vec::new(),
            params_instance_names: Vec::new(),
            datarefs_instance_names: Vec::new(),
            params_instance_indexes: Vec::new(),
            datarefs_instance_indexes: Vec::new(),
        }
    }
}

/// The names of the datarefs that are not hidden, in their order.
pub open spec fn visible_names(ds: Seq<DatarefRef>) -> Seq<Seq<char>>
    decreases ds.len(),
{
    if ds.len() == 0 {
        Seq::empty()
    } else {
        let r = visible_names(ds.drop_last());
        if ds.last().hidden {
            r
        } else {
            r.push(ds.last().name@)
        }
    }
}

impl Instance {
    /// An instance with these parts; the names of its visible datarefs are
    /// those of its datarefs that are not hidden, in their order.
    pub fn new(index: usize, name: String, alias: Option<String>, params: Vec<ParamRef>, datarefs: Vec<DatarefRef>) -> (i: Self)
        ensures
            i.index == index,
            i.name == name,
            i.alias == alias,
            i.params == params,
            i.datarefs == datarefs,
            i.visible_datarefs@.map_values(|s: String| s@) == visible_names(datarefs@),
    {
        let mut visible: Vec<String> = Vec::new();
        let n = datarefs.len();
        let mut j: usize = 0;
        while j < n
            invariant
                n == datarefs@.len(),
                j <= n,
                visible@.map_values(|s: String| s@) == visible_names(datarefs@.take(j as int)),
            decreases n - j,
        {
            assert(datarefs@.take(j + 1).drop_last() =~= datarefs@.take(j as int));
            if !datarefs[j].hidden {
                let ghost before = visible@;
                visible.push(datarefs[j].name.clone());
                assert(visible@.map_values(|s: String| s@) =~= before.map_values(|s: String| s@).push(
                    datarefs@[j as int].name@,
                ));
            }
            j = j + 1;
        }
        assert(datarefs@.take(n as int) =~= datarefs@);
        Instance { index, name, alias, params, datarefs, visible_datarefs: visible }
    }

    /// The alias, or the runner index and the patcher name.
    pub open spec fn display_name(&self) -> Seq<char> {
        match self.alias {
            Some(a) => a@,
            None => decimal(self.index as nat) + ": "@ + self.name@,
        }
    }

    /// The alias, or `"{index}: {name}"`.
    pub fn alias_or_index_name(&self) -> (s: String)
        ensures
            s@ == self.display_name(),
    {
        match &self.alias {
            Some(a) => a.clone(),
            None => {
                let mut s = decimal_string(self.index);
                s.append(": ");
                s.append(self.name.as_str());
                proof {
                    reveal_strlit(": ");
                }
                s
            },
        }
    }
}

/// The bookkeeping as values.
pub struct BookView {
    pub instances: Seq<Instance>,
    pub params: Seq<ParamRef>,
    pub instance_params: Seq<Seq<usize>>,
    pub instance_param_map: Seq<((usize, usize), (usize, usize))>,
    pub alias_map: Seq<(usize, Seq<char>)>,
    pub dataref_lookup: Seq<(Seq<char>, (usize, Seq<char>))>,
    pub dataref_meta_lookup: Seq<(Seq<char>, (usize, Seq<char>))>,
    pub params_instance_names: Seq<Seq<char>>,
    pub datarefs_instance_names: Seq<Seq<char>>,
    pub params_instance_indexes: Seq<usize>,
    pub datarefs_instance_indexes: Seq<usize>,
    /// For each instance under "Device Params", its number of pages.
    pub pages: Seq<usize>,
    /// For each instance under "Device Data", its number of visible datarefs.
    pub dataref_count: Seq<usize>,
}

/// A lookup entry as values.
pub open spec fn entry_view(e: (String, (usize, String))) -> (Seq<char>, (usize, Seq<char>)) {
    let (a, (l, n)) = e;
    (a@, (l, n@))
}

impl InstanceBook {
    /// The bookkeeping as values, with the page and dataref counts kept in
    /// the menus' counts.
    pub open spec fn view_with(&self, common: &CommonContext) -> BookView {
        self.view_parts(common.instance_param_pages@, common.dataref_count@)
    }

    /// The bookkeeping as values, with the given page and dataref counts.
    pub open spec fn view_parts(&self, pages: Seq<usize>, counts: Seq<usize>) -> BookView {
        BookView {
            instances: self.instances@,
            params: self.params@,
            instance_params: self.instance_params@.map_values(|v: Vec<usize>| v@),
            instance_param_map: self.instance_param_map@,
            alias_map: self.alias_map@.map_values(|e: (usize, String)| (e.0, e.1@)),
            dataref_lookup: self.dataref_lookup@.map_values(|e: (String, (usize, String))| entry_view(e)),
            dataref_meta_lookup: self.dataref_meta_lookup@.map_values(
                |e: (String, (usize, String))| entry_view(e),
            ),
            params_instance_names: self.params_instance_names@.map_values(|s: String| s@),
            datarefs_instance_names: self.datarefs_instance_names@.map_values(|s: String| s@),
            params_instance_indexes: self.params_instance_indexes@,
            datarefs_instance_indexes: self.datarefs_instance_indexes@,
            pages,
            dataref_count: counts,
        }
    }
}

/// Adding an instance's parameters: the parameter list, the map from
/// (instance, parameter) pairs, and the visible ones among those added.
pub open spec fn add_params(
    params: Seq<ParamRef>,
    map: Seq<((usize, usize), (usize, usize))>,
    ps: Seq<ParamRef>,
    lpi: usize,
) -> (Seq<ParamRef>, Seq<((usize, usize), (usize, usize))>, Seq<usize>)
    decreases ps.len(),
{
    if ps.len() == 0 {
        (params, map, Seq::empty())
    } else {
        let prev = add_params(params, map, ps.drop_last(), lpi);
        let p = ps.last();
        (
            prev.0.push(p),
            if p.hidden {
                prev.1
            } else {
                prev.1.push(((p.instance_index, p.index), (lpi, prev.2.len() as usize)))
            },
            if p.hidden {
                prev.2
            } else {
                prev.2.push(prev.0.len() as usize)
            },
        )
    }
}

/// The lookup entries of an instance's datarefs, for the value address and
/// for the meta address.
pub open spec fn dataref_entries(inst: Instance, local: usize, meta: bool) -> Seq<(Seq<char>, (usize, Seq<char>))> {
    Seq::new(
        inst.datarefs@.len(),
        |j: int|
            (
                if meta {
                    dataref_addr(inst.index, inst.datarefs@[j].name@) + "/meta"@
                } else {
                    dataref_addr(inst.index, inst.datarefs@[j].name@)
                },
                (local, inst.datarefs@[j].name@),
            ),
    )
}

/// The bookkeeping after adding one instance at the end.
pub open spec fn add_instance(b: BookView, inst: Instance) -> BookView {
    let local = b.instances.len() as usize;
    let name = inst.display_name();
    let b1 = BookView { alias_map: b.alias_map.push((inst.index, name)), ..b };
    let b2 = if inst.params@.len() > 0 {
        let lpi = b1.params_instance_names.len() as usize;
        let added = add_params(b1.params, b1.instance_param_map, inst.params@, lpi);
        if added.2.len() > 0 {
            BookView {
                params: added.0,
                instance_param_map: added.1,
                pages: b1.pages.push(spec_param_pages(added.2.len()) as usize),
                instance_params: b1.instance_params.push(added.2),
                params_instance_names: b1.params_instance_names.push(name),
                params_instance_indexes: b1.params_instance_indexes.push(local),
                ..b1
            }
        } else {
            BookView { params: added.0, instance_param_map: added.1, ..b1 }
        }
    } else {
        b1
    };
    let b3 = if inst.visible_datarefs@.len() > 0 {
        BookView {
            datarefs_instance_names: b2.datarefs_instance_names.push(name),
            datarefs_instance_indexes: b2.datarefs_instance_indexes.push(local),
            dataref_count: b2.dataref_count.push(inst.visible_datarefs@.len() as usize),
            ..b2
        }
    } else {
        b2
    };
    BookView {
        dataref_lookup: b3.dataref_lookup + dataref_entries(inst, local, false),
        dataref_meta_lookup: b3.dataref_meta_lookup + dataref_entries(inst, local, true),
        instances: b3.instances.push(inst),
        ..b3
    }
}

/// The bookkeeping built from the instances in order; the dataref lookup
/// starts from `lookup`, the others from nothing.
pub open spec fn build(insts: Seq<Instance>, lookup: Seq<(Seq<char>, (usize, Seq<char>))>) -> BookView
    decreases insts.len(),
{
    if insts.len() == 0 {
        BookView {
            instances: Seq::empty(),
            params: Seq::empty(),
            instance_params: Seq::empty(),
            instance_param_map: Seq::empty(),
            alias_map: Seq::empty(),
            dataref_lookup: lookup,
            dataref_meta_lookup: Seq::empty(),
            params_instance_names: Seq::empty(),
            datarefs_instance_names: Seq::empty(),
            params_instance_indexes: Seq::empty(),
            datarefs_instance_indexes: Seq::empty(),
            pages: Seq::empty(),
            dataref_count: Seq::empty(),
        }
    } else {
        add_instance(build(insts.drop_last(), lookup), insts.last())
    }
}

/// No key is below the one before it.
pub open spec fn keys_sorted(s: Seq<(usize, Instance)>) -> bool {
    forall|i: int| 0 <= i < s.len() - 1 ==> #[trigger] s[i].0 <= s[i + 1].0
}

/// The instances sorted by their keys.
pub fn sort_by_key(v: Vec<(usize, Instance)>) -> (out: Vec<(usize, Instance)>)
    ensures
        out@.to_multiset() == v@.to_multiset(),
        keys_sorted(out@),
{
    broadcast use vstd::seq_lib::group_to_multiset_ensures, vstd::multiset::group_multiset_axioms;

    let ghost orig = v@;
    let mut rest = v;
    let mut out: Vec<(usize, Instance)> = Vec::new();
    while rest.len() > 0
        invariant
            out@.to_multiset().add(rest@.to_multiset()) == orig.to_multiset(),
            keys_sorted(out@),
        decreases rest@.len(),
    {
        let ghost r0 = rest@;
        let x = rest.remove(0);
        proof {
            vstd::seq_lib::to_multiset_remove(r0, 0);
        }
        let mut k: usize = 0;
        let mut stop = false;
        while !stop && k < out.len()
            invariant
                0 <= k <= out@.len(),
                forall|j: int| 0 <= j < k ==> (#[trigger] out@[j]).0 <= x.0,
                stop ==> (k < out@.len() && x.0 < out@[k as int].0),
            decreases out@.len() - k + (if stop { 0int } else { 1int }),
        {
            if x.0 < out[k].0 {
                stop = true;
            } else {
                k = k + 1;
            }
        }
        let ghost o0 = out@;
        proof {
            if k > 0 {
                assert(o0[k - 1].0 <= x.0);
            }
        }
        out.insert(k, x);
        proof {
            vstd::seq_lib::to_multiset_insert(o0, k as int, x);
            assert forall|i: int| 0 <= i < out@.len() - 1 implies #[trigger] out@[i].0 <= out@[i + 1].0 by {
                if i + 1 < k {
                    assert(out@[i + 1] == o0[i + 1] && out@[i] == o0[i]);
                    assert(o0[i].0 <= o0[i + 1].0);
                } else if i + 1 == k {
                    assert(out@[i + 1] == x && out@[i] == o0[i]);
                } else if i == k {
                    assert(out@[i + 1] == o0[i] && out@[i] == x);
                } else {
                    assert(out@[i + 1] == o0[i] && out@[i] == o0[i - 1]);
                    assert(o0[i - 1].0 <= o0[i].0);
                }
            }
            assert(r0[0] == x);
            assert(r0.contains(x));
            vstd::seq_lib::to_multiset_contains(r0, x);
            assert(out@.to_multiset().add(rest@.to_multiset()) =~= orig.to_multiset());
        }
    }
    proof {
        assert(rest@.to_multiset() =~= Multiset::<(usize, Instance)>::empty());
        assert(out@.to_multiset().add(Multiset::<(usize, Instance)>::empty()) =~= out@.to_multiset());
    }
    out
}

/// Mapping over a sequence with one more item.
pub proof fn lemma_map_push<A, B>(s: Seq<A>, x: A, f: spec_fn(A) -> B)
    ensures
        s.push(x).map_values(f) == s.map_values(f).push(f(x)),
{
    assert(s.push(x).map_values(f) =~= s.map_values(f).push(f(x)));
}

fn add_params_exec(
    book: &mut InstanceBook,
    ps: &Vec<ParamRef>,
    lpi: usize,
) -> (vis: Vec<usize>)
    ensures
        (final(book).params@, final(book).instance_param_map@, vis@) == add_params(
            old(book).params@,
            old(book).instance_param_map@,
            ps@,
            lpi,
        ),
        final(book).instances == old(book).instances,
        final(book).instance_params == old(book).instance_params,
        final(book).alias_map == old(book).alias_map,
        final(book).dataref_lookup == old(book).dataref_lookup,
        final(book).dataref_meta_lookup == old(book).dataref_meta_lookup,
        final(book).params_instance_names == old(book).params_instance_names,
        final(book).datarefs_instance_names == old(book).datarefs_instance_names,
        final(book).params_instance_indexes == old(book).params_instance_indexes,
        final(book).datarefs_instance_indexes == old(book).datarefs_instance_indexes,
{
    let mut vis: Vec<usize> = Vec::new();
    let n = ps.len();
    let mut j: usize = 0;
    assert(ps@.take(0) =~= Seq::<ParamRef>::empty());
    while j < n
        invariant
            n == ps@.len(),
            j <= n,
            (book.params@, book.instance_param_map@, vis@) == add_params(
                old(book).params@,
                old(book).instance_param_map@,
                ps@.take(j as int),
                lpi,
            ),
            book.instances == old(book).instances,
            book.instance_params == old(book).instance_params,
            book.alias_map == old(book).alias_map,
            book.dataref_lookup == old(book).dataref_lookup,
            book.dataref_meta_lookup == old(book).dataref_meta_lookup,
            book.params_instance_names == old(book).params_instance_names,
            book.datarefs_instance_names == old(book).datarefs_instance_names,
            book.params_instance_indexes == old(book).params_instance_indexes,
            book.datarefs_instance_indexes == old(book).datarefs_instance_indexes,
        decreases n - j,
    {
        assert(ps@.take(j + 1).drop_last() =~= ps@.take(j as int));
        let p = ps[j].clone();
        let index = book.params.len();
        if !p.hidden {
            book.instance_param_map.push(((p.instance_index, p.index), (lpi, vis.len())));
            vis.push(index);
        }
        book.params.push(p);
        j = j + 1;
    }
    assert(ps@.take(n as int) =~= ps@);
    vis
}

fn add_dataref_entries(book: &mut InstanceBook, inst: &Instance, local: usize)
    ensures
        final(book).dataref_lookup@.map_values(|e: (String, (usize, String))| entry_view(e))
            == old(book).dataref_lookup@.map_values(|e: (String, (usize, String))| entry_view(e))
            + dataref_entries(*inst, local, false),
        final(book).dataref_meta_lookup@.map_values(|e: (String, (usize, String))| entry_view(e))
            == old(book).dataref_meta_lookup@.map_values(|e: (String, (usize, String))| entry_view(e))
            + dataref_entries(*inst, local, true),
        final(book).instances == old(book).instances,
        final(book).params == old(book).params,
        final(book).instance_params == old(book).instance_params,
        final(book).instance_param_map == old(book).instance_param_map,
        final(book).alias_map == old(book).alias_map,
        final(book).params_instance_names == old(book).params_instance_names,
        final(book).datarefs_instance_names == old(book).datarefs_instance_names,
        final(book).params_instance_indexes == old(book).params_instance_indexes,
        final(book).datarefs_instance_indexes == old(book).datarefs_instance_indexes,
{
    let ghost l0 = old(book).dataref_lookup@.map_values(|e: (String, (usize, String))| entry_view(e));
    let ghost m0 = old(book).dataref_meta_lookup@.map_values(|e: (String, (usize, String))| entry_view(e));
    let n = inst.datarefs.len();
    let mut j: usize = 0;
    while j < n
        invariant
            n == inst.datarefs@.len(),
            j <= n,
            book.dataref_lookup@.map_values(|e: (String, (usize, String))| entry_view(e)) == l0
                + dataref_entries(*inst, local, false).take(j as int),
            book.dataref_meta_lookup@.map_values(|e: (String, (usize, String))| entry_view(e)) == m0
                + dataref_entries(*inst, local, true).take(j as int),
            book.instances == old(book).instances,
            book.params == old(book).params,
            book.instance_params == old(book).instance_params,
            book.instance_param_map == old(book).instance_param_map,
            book.alias_map == old(book).alias_map,
            book.params_instance_names == old(book).params_instance_names,
            book.datarefs_instance_names == old(book).datarefs_instance_names,
            book.params_instance_indexes == old(book).params_instance_indexes,
            book.datarefs_instance_indexes == old(book).datarefs_instance_indexes,
        decreases n - j,
    {
        let name = &inst.datarefs[j].name;
        let mut addr = concat("/rnbo/inst/", decimal_string(inst.index).as_str());
        addr.append("/data_refs/");
        addr.append(name.as_str());
        let meta = concat(addr.as_str(), "/meta");
        proof {
            reveal_strlit("/rnbo/inst/");
            reveal_strlit("/data_refs/");
        }
        let e1 = (addr, (local, name.clone()));
        let e2 = (meta, (local, name.clone()));
        proof {
            lemma_map_push(book.dataref_lookup@, e1, |e: (String, (usize, String))| entry_view(e));
            lemma_map_push(book.dataref_meta_lookup@, e2, |e: (String, (usize, String))| entry_view(e));
            assert(dataref_entries(*inst, local, false).take(j + 1) =~= dataref_entries(*inst, local, false).take(
                j as int,
            ).push(entry_view(e1)));
            assert(dataref_entries(*inst, local, true).take(j + 1) =~= dataref_entries(*inst, local, true).take(
                j as int,
            ).push(entry_view(e2)));
        }
        book.dataref_lookup.push(e1);
        book.dataref_meta_lookup.push(e2);
        j = j + 1;
    }
    assert(dataref_entries(*inst, local, false).take(n as int) =~= dataref_entries(*inst, local, false));
    assert(dataref_entries(*inst, local, true).take(n as int) =~= dataref_entries(*inst, local, true));
}

fn add_instance_exec(
    book: &mut InstanceBook,
    pages: &mut Vec<usize>,
    counts: &mut Vec<usize>,
    inst: Instance,
)
    ensures
        final(book).view_parts(final(pages)@, final(counts)@) == add_instance(
            old(book).view_parts(old(pages)@, old(counts)@),
            inst,
        ),
{
    let ghost b0 = old(book).view_parts(old(pages)@, old(counts)@);
    let local = book.instances.len();
    let name = inst.alias_or_index_name();
    proof {
        lemma_map_push(book.alias_map@, (inst.index, name), |e: (usize, String)| (e.0, e.1@));
    }
    book.alias_map.push((inst.index, name.clone()));
    let ghost b1 = BookView { alias_map: b0.alias_map.push((inst.index, name@)), ..b0 };
    assert(book.view_parts(pages@, counts@) == b1);
    if inst.params.len() > 0 {
        let lpi = book.params_instance_names.len();
        let vis = add_params_exec(book, &inst.params, lpi);
        if vis.len() > 0 {
            pages.push(param_pages(vis.len()));
            proof {
                lemma_map_push(book.instance_params@, vis, |v: Vec<usize>| v@);
                lemma_map_push(book.params_instance_names@, name, |s: String| s@);
            }
            book.instance_params.push(vis);
            book.params_instance_names.push(name.clone());
            book.params_instance_indexes.push(local);
        }
    }
    let ghost b2 = book.view_parts(pages@, counts@);
    if inst.visible_datarefs.len() > 0 {
        proof {
            lemma_map_push(book.datarefs_instance_names@, name, |s: String| s@);
        }
        book.datarefs_instance_names.push(name.clone());
        book.datarefs_instance_indexes.push(local);
        counts.push(inst.visible_datarefs.len());
    }
    add_dataref_entries(book, &inst, local);
    book.instances.push(inst);
    assert(book.view_parts(pages@, counts@) =~= add_instance(b0, inst));
}

/// Building keeps the instances, in order.
pub proof fn lemma_build_instances(insts: Seq<Instance>, lookup: Seq<(Seq<char>, (usize, Seq<char>))>)
    ensures
        build(insts, lookup).instances == insts,
    decreases insts.len(),
{
    if insts.len() > 0 {
        lemma_build_instances(insts.drop_last(), lookup);
        assert(insts.drop_last().push(insts.last()) =~= insts);
    }
}

/// The counts with the instance lists' counts replaced.
pub open spec fn with_instance_counts(c: CommonContext, b: BookView) -> CommonContext {
    CommonContext {
        instance_param_pages: c.instance_param_pages,
        dataref_count: c.dataref_count,
        params_instances_count: b.params_instance_names.len() as usize,
        datarefs_instances_count: b.datarefs_instance_names.len() as usize,
        ..c
    }
}

impl Controller {
    /// Takes the instances the runner has, each with its runner index: they
    /// are ordered by index and the lists the menus show are built from them
    /// anew; the dataref address lookup keeps its old entries. The view list
    /// empties, and the menus hear that the instances changed.
    pub fn set_instances(&mut self, instances: Vec<(usize, Instance)>)
        requires
            old(self).wf(),
        ensures
            final(self).wf(),
            exists|sorted: Seq<(usize, Instance)>|
                #![trigger keys_sorted(sorted)]
                sorted.to_multiset() == instances@.to_multiset() && keys_sorted(sorted)
                    && final(self).book.instances@ == sorted.map_values(|p: (usize, Instance)| p.1),
            final(self).book.view_with(&final(self).ctx.common) == build(
                final(self).book.instances@,
                old(self).book.dataref_lookup@.map_values(|e: (String, (usize, String))| entry_view(e)),
            ),
            final(self).ctx.common.params_instances_count == final(self).book.params_instance_names@.len(),
            final(self).ctx.common.datarefs_instances_count == final(self).book.datarefs_instance_names@.len(),
            final(self).ctx.common == (CommonContext {
                instance_param_pages: final(self).ctx.common.instance_param_pages,
                dataref_count: final(self).ctx.common.dataref_count,
                params_instances_count: final(self).ctx.common.params_instances_count,
                datarefs_instances_count: final(self).ctx.common.datarefs_instances_count,
                ..old(self).ctx.common
            }),
            final(self).views.param_views@.len() == 0,
            final(self).views.lookup@.len() == 0,
            final(self).views.order == old(self).views.order,
            final(self).views.names == old(self).views.names,
            final(self).views.params == old(self).views.params,
            old(self).rebooked(final(self).book, final(self).views, final(self).ctx.common).stepped(
                final(self),
                Events::InstancesChanged(instances@.len() as usize),
            ),
            final(self).input == old(self).input,
    {
        let n = instances.len();
        let sorted = sort_by_key(instances);
        let ghost sv = sorted@;
        let ghost vals = sv.map_values(|p: (usize, Instance)| p.1);
        let ghost lookup0 = self.book.dataref_lookup@.map_values(|e: (String, (usize, String))| entry_view(e));
        let mut book = InstanceBook::new();
        std::mem::swap(&mut book.dataref_lookup, &mut self.book.dataref_lookup);
        let mut pages: Vec<usize> = Vec::new();
        let mut counts: Vec<usize> = Vec::new();
        let mut rest = sorted;
        let m = rest.len();
        let mut k: usize = 0;
        assert(vals.take(0) =~= Seq::<Instance>::empty());
        proof {
            let bv = book.view_parts(pages@, counts@);
            let b0 = build(vals.take(0), lookup0);
            assert(bv.instance_params =~= b0.instance_params);
            assert(bv.alias_map =~= b0.alias_map);
            assert(bv.dataref_meta_lookup =~= b0.dataref_meta_lookup);
            assert(bv.params_instance_names =~= b0.params_instance_names);
            assert(bv.datarefs_instance_names =~= b0.datarefs_instance_names);
            assert(bv.instances =~= b0.instances);
            assert(bv.params =~= b0.params);
            assert(bv.instance_param_map =~= b0.instance_param_map);
            assert(bv.dataref_lookup =~= b0.dataref_lookup);
            assert(bv.params_instance_indexes =~= b0.params_instance_indexes);
            assert(bv.datarefs_instance_indexes =~= b0.datarefs_instance_indexes);
            assert(bv.pages =~= b0.pages);
            assert(bv.dataref_count =~= b0.dataref_count);
            assert(bv == b0);
        }
        while k < m
            invariant
                m == sv.len(),
                k <= m,
                vals == sv.map_values(|p: (usize, Instance)| p.1),
                rest@ == sv.skip(k as int),
                book.view_parts(pages@, counts@) == build(vals.take(k as int), lookup0),
            decreases m - k,
        {
            let (_key, inst) = rest.remove(0);
            assert(vals.take(k + 1).drop_last() =~= vals.take(k as int));
            assert(inst == vals[k as int]);
            add_instance_exec(&mut book, &mut pages, &mut counts, inst);
            k = k + 1;
            assert(rest@ =~= sv.skip(k as int));
        }
        assert(vals.take(m as int) =~= vals);
        proof {
            vstd::seq_lib::to_multiset_len(sv);
            lemma_build_wf(vals, lookup0);
        }
        self.book = book;
        self.ctx.common.instance_param_pages = pages;
        self.ctx.common.dataref_count = counts;
        self.ctx.common.params_instances_count = self.book.params_instance_names.len();
        self.ctx.common.datarefs_instances_count = self.book.datarefs_instance_names.len();
        self.views.clear_param_views();
        proof {
            lemma_build_instances(vals, lookup0);
        }
        assert(self.book.instances@ == vals);
        self.handle_event(Events::InstancesChanged(n));
    }
}

/// Every position the instance lists hold points at an instance.
pub open spec fn indexes_wf(b: BookView) -> bool {
    &&& forall|i: int| 0 <= i < b.params_instance_indexes.len() ==> #[trigger] b.params_instance_indexes[i]
        < b.instances.len()
    &&& forall|i: int| 0 <= i < b.datarefs_instance_indexes.len() ==> #[trigger] b.datarefs_instance_indexes[i]
        < b.instances.len()
}

/// Building from instances leaves every listed position pointing at one.
pub proof fn lemma_build_wf(insts: Seq<Instance>, lookup: Seq<(Seq<char>, (usize, Seq<char>))>)
    requires
        insts.len() <= usize::MAX,
    ensures
        indexes_wf(build(insts, lookup)),
        build(insts, lookup).instances == insts,
    decreases insts.len(),
{
    lemma_build_instances(insts, lookup);
    if insts.len() > 0 {
        lemma_build_wf(insts.drop_last(), lookup);
        lemma_build_instances(insts.drop_last(), lookup);
    }
}

/// Position of the first instance with runner index `i`.
pub open spec fn inst_pos(insts: Seq<Instance>, i: usize) -> Option<int>
    decreases insts.len(),
{
    if insts.len() == 0 {
        None
    } else {
        match inst_pos(insts.drop_last(), i) {
            Some(p) => Some(p),
            None => if insts.last().index == i {
                Some(insts.len() - 1)
            } else {
                None
            },
        }
    }
}

proof fn lemma_inst_pos_extends(r: Seq<Instance>, i: usize, k: int)
    requires
        0 <= k <= r.len(),
        inst_pos(r.take(k), i) is Some,
    ensures
        inst_pos(r, i) == inst_pos(r.take(k), i),
    decreases r.len() - k,
{
    if k < r.len() {
        assert(r.take(k + 1).drop_last() =~= r.take(k));
        lemma_inst_pos_extends(r, i, k + 1);
    } else {
        assert(r.take(k) =~= r);
    }
}

proof fn lemma_inst_pos_none(r: Seq<Instance>, i: usize)
    requires
        forall|j: int| 0 <= j < r.len() ==> r[j].index != i,
    ensures
        inst_pos(r, i) is None,
    decreases r.len(),
{
    if r.len() > 0 {
        lemma_inst_pos_none(r.drop_last(), i);
    }
}

/// Position of the first instance with runner index `i`.
pub fn find_instance(r: &Vec<Instance>, i: usize) -> (p: Option<usize>)
    ensures
        p is Some ==> inst_pos(r@, i) == Some(p->0 as int) && p->0 < r@.len(),
        p is None ==> inst_pos(r@, i) is None,
{
    let n = r.len();
    let mut k: usize = 0;
    while k < n
        invariant
            n == r@.len(),
            k <= n,
            forall|j: int| 0 <= j < k ==> r@[j].index != i,
        decreases n - k,
    {
        if r[k].index == i {
            proof {
                lemma_inst_pos_none(r@.take(k as int), i);
                assert(r@.take(k + 1).drop_last() =~= r@.take(k as int));
                lemma_inst_pos_extends(r@, i, k + 1);
            }
            return Some(k);
        }
        k = k + 1;
    }
    proof {
        lemma_inst_pos_none(r@, i);
    }
    None
}

/// Grouping the visible parameters by instance, run by run of equal
/// instance index: the groups kept so far, the index of the current run, and
/// its visible parameters not yet kept.
pub struct GroupState {
    pub instance_params: Seq<Seq<usize>>,
    pub names: Seq<Seq<char>>,
    pub indexes: Seq<usize>,
    pub pages: Seq<usize>,
    pub current: usize,
    pub pending: Seq<usize>,
}

/// Ends the current run: its visible parameters become a group when there
/// are any and an instance has the run's index; otherwise they stay pending.
pub open spec fn flush(g: GroupState, insts: Seq<Instance>) -> GroupState {
    if g.pending.len() > 0 {
        match inst_pos(insts, g.current) {
            Some(l) => GroupState {
                instance_params: g.instance_params.push(g.pending),
                names: g.names.push(insts[l].display_name()),
                indexes: g.indexes.push(l as usize),
                pages: g.pages.push(spec_param_pages(g.pending.len()) as usize),
                pending: Seq::empty(),
                ..g
            },
            None => g,
        }
    } else {
        g
    }
}

/// The grouping after the parameters `ps`, which sit at the start of the
/// parameter list; the first run is taken to have index 0.
pub open spec fn group_params(ps: Seq<ParamRef>, insts: Seq<Instance>) -> GroupState
    decreases ps.len(),
{
    if ps.len() == 0 {
        GroupState {
            instance_params: Seq::empty(),
            names: Seq::empty(),
            indexes: Seq::empty(),
            pages: Seq::empty(),
            current: 0,
            pending: Seq::empty(),
        }
    } else {
        let g = group_params(ps.drop_last(), insts);
        let p = ps.last();
        let g1 = if p.instance_index != g.current {
            GroupState { current: p.instance_index, ..flush(g, insts) }
        } else {
            g
        };
        if p.hidden {
            g1
        } else {
            GroupState { pending: g1.pending.push((ps.len() - 1) as usize), ..g1 }
        }
    }
}

/// The groups after the whole parameter list.
pub open spec fn regrouped(ps: Seq<ParamRef>, insts: Seq<Instance>) -> GroupState {
    flush(group_params(ps, insts), insts)
}

proof fn lemma_flush_indexes(g: GroupState, insts: Seq<Instance>)
    requires
        forall|i: int| 0 <= i < g.indexes.len() ==> #[trigger] g.indexes[i] < insts.len(),
    ensures
        forall|i: int| 0 <= i < flush(g, insts).indexes.len() ==> #[trigger] flush(g, insts).indexes[i]
            < insts.len(),
{
    if g.pending.len() > 0 {
        if let Some(l) = inst_pos(insts, g.current) {
            lemma_inst_pos_bound(insts, g.current);
        }
    }
}

proof fn lemma_inst_pos_bound(insts: Seq<Instance>, i: usize)
    ensures
        inst_pos(insts, i) is Some ==> 0 <= inst_pos(insts, i)->0 < insts.len(),
    decreases insts.len(),
{
    if insts.len() > 0 {
        lemma_inst_pos_bound(insts.drop_last(), i);
    }
}

proof fn lemma_group_indexes(ps: Seq<ParamRef>, insts: Seq<Instance>)
    ensures
        forall|i: int| 0 <= i < group_params(ps, insts).indexes.len() ==> #[trigger] group_params(
            ps,
            insts,
        ).indexes[i] < insts.len(),
    decreases ps.len(),
{
    if ps.len() > 0 {
        lemma_group_indexes(ps.drop_last(), insts);
        lemma_flush_indexes(group_params(ps.drop_last(), insts), insts);
    }
}

/// What a flush keeps: the groups as exec values.
struct Groups {
    instance_params: Vec<Vec<usize>>,
    names: Vec<String>,
    indexes: Vec<usize>,
    pages: Vec<usize>,
}

impl Groups {
    spec fn matches(&self, g: GroupState, current: usize, pending: Seq<usize>) -> bool {
        &&& self.instance_params@.map_values(|v: Vec<usize>| v@) == g.instance_params
        &&& self.names@.map_values(|s: String| s@) == g.names
        &&& self.indexes@ == g.indexes
        &&& self.pages@ == g.pages
        &&& current == g.current
        &&& pending == g.pending
    }
}

fn flush_exec(groups: &mut Groups, current: usize, pending: &mut Vec<usize>, insts: &Vec<Instance>)
    ensures
        forall|g: GroupState| old(groups).matches(g, current, old(pending)@) ==> final(groups).matches(
            flush(g, insts@),
            current,
            final(pending)@,
        ),
{
    if pending.len() > 0 {
        match find_instance(insts, current) {
            Some(l) => {
                let mut taken: Vec<usize> = Vec::new();
                std::mem::swap(&mut taken, pending);
                let ghost tv = taken@;
                let name = insts[l].alias_or_index_name();
                groups.pages.push(param_pages(taken.len()));
                proof {
                    lemma_map_push(groups.instance_params@, taken, |v: Vec<usize>| v@);
                    lemma_map_push(groups.names@, name, |s: String| s@);
                }
                groups.instance_params.push(taken);
                groups.names.push(name);
                groups.indexes.push(l);
            },
            None => {},
        }
    }
}

impl Controller {
    /// Works out again which instances are listed under "Device Params" and
    /// their visible parameters, from the parameter list as it stands; the
    /// menus hear that the instances changed.
    pub fn update_instance_params(&mut self)
        requires
            old(self).wf(),
        ensures
            final(self).wf(),
            final(self).book.instance_params@.map_values(|v: Vec<usize>| v@) == regrouped(
                old(self).book.params@,
                old(self).book.instances@,
            ).instance_params,
            final(self).book.params_instance_names@.map_values(|s: String| s@) == regrouped(
                old(self).book.params@,
                old(self).book.instances@,
            ).names,
            final(self).book.params_instance_indexes@ == regrouped(
                old(self).book.params@,
                old(self).book.instances@,
            ).indexes,
            final(self).book == (InstanceBook {
                instance_params: final(self).book.instance_params,
                params_instance_names: final(self).book.params_instance_names,
                params_instance_indexes: final(self).book.params_instance_indexes,
                ..old(self).book
            }),
            final(self).ctx.common.instance_param_pages@ == regrouped(
                old(self).book.params@,
                old(self).book.instances@,
            ).pages,
            final(self).ctx.common.params_instances_count == final(self).book.params_instance_names@.len(),
            final(self).ctx.common == (CommonContext {
                instance_param_pages: final(self).ctx.common.instance_param_pages,
                params_instances_count: final(self).ctx.common.params_instances_count,
                ..old(self).ctx.common
            }),
            old(self).rebooked(final(self).book, old(self).views, final(self).ctx.common).stepped(
                final(self),
                Events::InstancesChanged(final(self).ctx.common.params_instances_count),
            ),
            final(self).input == old(self).input,
    {
        let ghost ps = self.book.params@;
        let ghost insts = self.book.instances@;
        let mut groups = Groups {
            instance_params: Vec::new(),
            names: Vec::new(),
            indexes: Vec::new(),
            pages: Vec::new(),
        };
        let mut current: usize = 0;
        let mut pending: Vec<usize> = Vec::new();
        let n = self.book.params.len();
        let mut k: usize = 0;
        assert(ps.take(0) =~= Seq::<ParamRef>::empty());
        assert(groups.instance_params@.map_values(|v: Vec<usize>| v@) =~= Seq::<Seq<usize>>::empty());
        assert(groups.names@.map_values(|s: String| s@) =~= Seq::<Seq<char>>::empty());
        assert(groups.indexes@ =~= Seq::<usize>::empty());
        assert(groups.pages@ =~= Seq::<usize>::empty());
        assert(pending@ =~= Seq::<usize>::empty());
        assert(groups.matches(group_params(ps.take(0), insts), current, pending@));
        while k < n
            invariant
                n == ps.len(),
                ps == self.book.params@,
                insts == self.book.instances@,
                k <= n,
                groups.matches(group_params(ps.take(k as int), insts), current, pending@),
            decreases n - k,
        {
            assert(ps.take(k + 1).drop_last() =~= ps.take(k as int));
            let ii = self.book.params[k].instance_index;
            let hidden = self.book.params[k].hidden;
            if ii != current {
                flush_exec(&mut groups, current, &mut pending, &self.book.instances);
                current = ii;
            }
            if !hidden {
                pending.push(k);
            }
            k = k + 1;
        }
        assert(ps.take(n as int) =~= ps);
        flush_exec(&mut groups, current, &mut pending, &self.book.instances);
        proof {
            lemma_group_indexes(ps, insts);
            lemma_flush_indexes(group_params(ps, insts), insts);
        }
        let count = groups.names.len();
        self.book.instance_params = groups.instance_params;
        self.book.params_instance_names = groups.names;
        self.book.params_instance_indexes = groups.indexes;
        self.ctx.common.instance_param_pages = groups.pages;
        self.ctx.common.params_instances_count = count;
        proof {
            let b = self.book.view_with(&self.ctx.common);
            let g = regrouped(ps, insts);
            assert(b.params_instance_indexes == g.indexes);
            assert(b.instances == insts);
            assert forall|i: int| 0 <= i < b.params_instance_indexes.len() implies #[trigger] b.params_instance_indexes[i]
                < b.instances.len() by {
                assert(g.indexes[i] < insts.len());
            }
            let ob = old(self).book.view_with(&old(self).ctx.common);
            assert(b.datarefs_instance_indexes == ob.datarefs_instance_indexes);
            assert forall|i: int| 0 <= i < b.datarefs_instance_indexes.len() implies #[trigger] b.datarefs_instance_indexes[i]
                < b.instances.len() by {
                assert(ob.datarefs_instance_indexes[i] < ob.instances.len());
            }
            assert(indexes_wf(b));
        }
        self.handle_event(Events::InstancesChanged(count));
    }
}

/// The well-formedness of the positions, read off the fields.
pub proof fn lemma_wf_indexes(b: &InstanceBook, c: &CommonContext)
    requires
        indexes_wf(b.view_with(c)),
    ensures
        forall|i: int| 0 <= i < b.params_instance_indexes@.len() ==> #[trigger] b.params_instance_indexes@[i]
            < b.instances@.len(),
        forall|i: int| 0 <= i < b.datarefs_instance_indexes@.len() ==> #[trigger] b.datarefs_instance_indexes@[i]
            < b.instances@.len(),
{
    let v = b.view_with(c);
    assert forall|i: int| 0 <= i < b.params_instance_indexes@.len() implies #[trigger] b.params_instance_indexes@[i]
        < b.instances@.len() by {
        assert(v.params_instance_indexes[i] < v.instances.len());
    }
    assert forall|i: int| 0 <= i < b.datarefs_instance_indexes@.len() implies #[trigger] b.datarefs_instance_indexes@[i]
        < b.instances@.len() by {
        assert(v.datarefs_instance_indexes[i] < v.instances.len());
    }
}

/// The positions stay well formed while they and the number of instances
/// stay the same.
pub proof fn lemma_wf_frame(a: &InstanceBook, ca: &CommonContext, b: &InstanceBook, cb: &CommonContext)
    requires
        indexes_wf(a.view_with(ca)),
        b.params_instance_indexes@ == a.params_instance_indexes@,
        b.datarefs_instance_indexes@ == a.datarefs_instance_indexes@,
        b.instances@.len() == a.instances@.len(),
    ensures
        indexes_wf(b.view_with(cb)),
{
    lemma_wf_indexes(a, ca);
    let v = b.view_with(cb);
    assert forall|i: int| 0 <= i < v.params_instance_indexes.len() implies #[trigger] v.params_instance_indexes[i]
        < v.instances.len() by {
        assert(a.params_instance_indexes@[i] < a.instances@.len());
    }
    assert forall|i: int| 0 <= i < v.datarefs_instance_indexes.len() implies #[trigger] v.datarefs_instance_indexes[i]
        < v.instances.len() by {
        assert(a.datarefs_instance_indexes@[i] < a.instances@.len());
    }
}

} // verus!
