//! The parameter views the runner defines, in the order the runner asks for,
//! and for each of them the parameters it shows.
use vstd::prelude::*;
use crate::context::CommonContext;
use crate::controller::Controller;
use crate::events::Events;
use crate::instances::{InstanceBook, ParamRef};
use crate::osc::{ArgView, OscArg};
use crate::nav::{param_pages, spec_param_pages};
use crate::view::{spec_parse_pair, ParamView};

verus! {

/// The views and what the menus show of them.
pub struct Views {
    /// The views as the runner sent them, sorted by `order`.
    pub param_views: Vec<ParamView>,
    /// The runner's view indexes in display order.
    pub order: Vec<usize>,
    /// For each runner view index that was sent, the position its view had
    /// when the list was set; the last entry for an index counts.
    pub lookup: Vec<(usize, usize)>,
    /// Names of the views that show at least one parameter.
    pub names: Vec<String>,
    /// For each of those views, the parameters it shows (indexes into the
    /// controller's parameter list).
    pub params: Vec<Vec<usize>>,
}

impl Views {
    pub fn new() -> (v: Self)
        ensures
            v.param_views@.len() == 0,
            v.order@.len() == 0,
            v.lookup@.len() == 0,
            v.names@.len() == 0,
            v.params@.len() == 0,
    {
        Views {
            param_views: Vec::new(),
            order: Vec::new(),
            lookup: Vec::new(),
            names: Vec::new(),
            params: Vec::new(),
        }
    }
}

/// Position of the first view with runner index `i`.
pub open spec fn view_pos(r: Seq<ParamView>, i: usize) -> Option<int>
    decreases r.len(),
{
    if r.len() == 0 {
        None
    } else {
        match view_pos(r.drop_last(), i) {
            Some(p) => Some(p),
            None => if r.last().spec_index() == i {
                Some(r.len() - 1)
            } else {
                None
            },
        }
    }
}

proof fn lemma_view_pos_extends(r: Seq<ParamView>, i: usize, k: int)
    requires
        0 <= k <= r.len(),
        view_pos(r.take(k), i) is Some,
    ensures
        view_pos(r, i) == view_pos(r.take(k), i),
    decreases r.len() - k,
{
    if k < r.len() {
        assert(r.take(k + 1).drop_last() =~= r.take(k));
        lemma_view_pos_extends(r, i, k + 1);
    } else {
        assert(r.take(k) =~= r);
    }
}

proof fn lemma_view_pos_none(r: Seq<ParamView>, i: usize)
    requires
        forall|j: int| 0 <= j < r.len() ==> r[j].spec_index() != i,
    ensures
        view_pos(r, i) is None,
    decreases r.len(),
{
    if r.len() > 0 {
        lemma_view_pos_none(r.drop_last(), i);
    }
}

fn find_view(r: &Vec<ParamView>, i: usize) -> (p: Option<usize>)
    ensures
        p is Some ==> view_pos(r@, i) == Some(p->0 as int) && p->0 < r@.len(),
        p is None ==> view_pos(r@, i) is None,
{
    let n = r.len();
    let mut k: usize = 0;
    while k < n
        invariant
            n == r@.len(),
            k <= n,
            forall|j: int| 0 <= j < k ==> r@[j].spec_index() != i,
        decreases n - k,
    {
        if r[k].index() == i {
            proof {
                lemma_view_pos_none(r@.take(k as int), i);
                assert(r@.take(k + 1).drop_last() =~= r@.take(k as int));
                lemma_view_pos_extends(r@, i, k + 1);
            }
            return Some(k);
        }
        k = k + 1;
    }
    proof {
        lemma_view_pos_none(r@, i);
    }
    None
}

/// Moving the views named by `order` to the front, one by one: the views
/// moved so far, and the rest. A view is taken out of the rest by moving the
/// rest's last view into its place.
pub open spec fn sort_state(views: Seq<ParamView>, order: Seq<usize>) -> (Seq<ParamView>, Seq<ParamView>)
    decreases order.len(),
{
    if order.len() == 0 {
        (Seq::empty(), views)
    } else {
        let (sorted, rest) = sort_state(views, order.drop_last());
        match view_pos(rest, order.last()) {
            Some(p) => (sorted.push(rest[p]), rest.update(p, rest.last()).drop_last()),
            None => (sorted, rest),
        }
    }
}

/// The views in the order `order` asks for, the others after them.
pub open spec fn sorted_views(views: Seq<ParamView>, order: Seq<usize>) -> Seq<ParamView> {
    sort_state(views, order).0 + sort_state(views, order).1
}

/// The entry for `k` in a list of (key, value) entries; the last one counts.
pub open spec fn map_get(m: Seq<((usize, usize), (usize, usize))>, k: (usize, usize)) -> Option<(usize, usize)>
    decreases m.len(),
{
    if m.len() == 0 {
        None
    } else if m.last().0 == k {
        Some(m.last().1)
    } else {
        map_get(m.drop_last(), k)
    }
}

/// The position in the parameter list of the last parameter with this
/// (instance, parameter index) pair.
pub open spec fn param_key_pos(ps: Seq<ParamRef>, k: (usize, usize)) -> Option<usize>
    decreases ps.len(),
{
    if ps.len() == 0 {
        None
    } else if ps.last().instance_index == k.0 && ps.last().index == k.1 {
        Some((ps.len() - 1) as usize)
    } else {
        param_key_pos(ps.drop_last(), k)
    }
}

/// The parameter (index into the parameter list) that a view's
/// (instance, parameter) pair stands for: the parameter with that pair,
/// when it is not hidden.
pub open spec fn resolve(book: &InstanceBook, k: (usize, usize)) -> Option<usize> {
    match param_key_pos(book.params@, k) {
        Some(p) => if book.params@[p as int].hidden {
            None
        } else {
            Some(p)
        },
        None => None,
    }
}

/// The parameters a view's pairs stand for, in order, skipping the pairs
/// that stand for none.
pub open spec fn resolve_all(book: &InstanceBook, ks: Seq<(usize, usize)>) -> Seq<usize>
    decreases ks.len(),
{
    if ks.len() == 0 {
        Seq::empty()
    } else {
        let r = resolve_all(book, ks.drop_last());
        match resolve(book, ks.last()) {
            Some(x) => r.push(x),
            None => r,
        }
    }
}

/// The views that show at least one parameter: their names and parameters.
pub open spec fn shown(book: &InstanceBook, vs: Seq<ParamView>) -> Seq<(Seq<char>, Seq<usize>)>
    decreases vs.len(),
{
    if vs.len() == 0 {
        Seq::empty()
    } else {
        let r = shown(book, vs.drop_last());
        let ps = resolve_all(book, vs.last().spec_params());
        if ps.len() > 0 {
            r.push((vs.last().spec_name(), ps))
        } else {
            r
        }
    }
}

/// The (instance, parameter) pairs of the parameters that are not hidden.
pub open spec fn visible_pairs(ps: Seq<ParamRef>) -> Seq<(usize, usize)>
    decreases ps.len(),
{
    if ps.len() == 0 {
        Seq::empty()
    } else {
        let r = visible_pairs(ps.drop_last());
        if ps.last().hidden {
            r
        } else {
            r.push((ps.last().instance_index, ps.last().index))
        }
    }
}

fn resolve_one(book: &InstanceBook, k: (usize, usize)) -> (r: Option<usize>)
    ensures
        r == resolve(book, k),
{
    let ps = &book.params;
    let mut j: usize = ps.len();
    assert(ps@.take(j as int) =~= ps@);
    while j > 0
        invariant
            ps@ == book.params@,
            j <= ps@.len(),
            param_key_pos(ps@, k) == param_key_pos(ps@.take(j as int), k),
        decreases j,
    {
        assert(ps@.take(j as int).drop_last() =~= ps@.take(j - 1));
        if ps[j - 1].instance_index == k.0 && ps[j - 1].index == k.1 {
            if ps[j - 1].hidden {
                return None;
            } else {
                return Some(j - 1);
            }
        }
        j = j - 1;
    }
    assert(ps@.take(0) =~= Seq::<ParamRef>::empty());
    None
}

fn resolve_list(book: &InstanceBook, ks: &Vec<(usize, usize)>) -> (r: Vec<usize>)
    ensures
        r@ == resolve_all(book, ks@),
{
    let mut r: Vec<usize> = Vec::new();
    let n = ks.len();
    let mut k: usize = 0;
    while k < n
        invariant
            n == ks@.len(),
            k <= n,
            r@ == resolve_all(book, ks@.take(k as int)),
        decreases n - k,
    {
        assert(ks@.take(k + 1).drop_last() =~= ks@.take(k as int));
        match resolve_one(book, ks[k]) {
            Some(x) => r.push(x),
            None => {},
        }
        k = k + 1;
    }
    assert(ks@.take(n as int) =~= ks@);
    r
}

fn sort_views_by(views: Vec<ParamView>, order: &Vec<usize>) -> (r: (Vec<ParamView>, Vec<ParamView>))
    ensures
        (r.0@, r.1@) == sort_state(views@, order@),
{
    let ghost v0 = views@;
    let ghost ord = order@;
    let mut rest = views;
    let mut sorted: Vec<ParamView> = Vec::new();
    let n = order.len();
    let mut k: usize = 0;
    assert(ord.take(0) =~= Seq::<usize>::empty());
    while k < n
        invariant
            n == ord.len(),
            ord == order@,
            k <= n,
            sorted@ == sort_state(v0, ord.take(k as int)).0,
            rest@ == sort_state(v0, ord.take(k as int)).1,
        decreases n - k,
    {
        assert(ord.take(k + 1).drop_last() =~= ord.take(k as int));
        let i = order[k];
        assert(ord.take(k + 1).last() == i);
        let ghost s0 = sorted@;
        let ghost r0 = rest@;
        match find_view(&rest, i) {
            Some(p) => {
                let v = rest.swap_remove(p);
                assert(v == r0[p as int]);
                sorted.push(v);
                assert(sorted@ =~= s0.push(r0[p as int]));
                assert(view_pos(r0, i) == Some(p as int));
                assert(sort_state(v0, ord.take(k + 1)).0 =~= s0.push(r0[p as int]));
            },
            None => {},
        }
        k = k + 1;
    }
    assert(ord.take(n as int) =~= ord);
    (sorted, rest)
}

impl Views {
    /// The names of the shown views.
    pub open spec fn name_views(&self) -> Seq<Seq<char>> {
        self.names@.map_values(|s: String| s@)
    }

    /// The parameters of the shown views.
    pub open spec fn param_views_of(&self) -> Seq<Seq<usize>> {
        self.params@.map_values(|v: Vec<usize>| v@)
    }

    /// The view list empties, and so does the lookup of view addresses.
    pub fn clear_param_views(&mut self)
        ensures
            final(self).param_views@.len() == 0,
            final(self).lookup@.len() == 0,
            final(self).order == old(self).order,
            final(self).names == old(self).names,
            final(self).params == old(self).params,
    {
        self.param_views.clear();
        self.lookup.clear();
    }

    /// Puts the views in the order the runner asks for; views it does not
    /// name follow.
    pub fn sort_param_views(&mut self)
        ensures
            final(self).param_views@ == sorted_views(old(self).param_views@, old(self).order@),
            final(self).order == old(self).order,
            final(self).lookup == old(self).lookup,
            final(self).names == old(self).names,
            final(self).params == old(self).params,
    {
        let ghost views = self.param_views@;
        let mut rest: Vec<ParamView> = Vec::new();
        std::mem::swap(&mut rest, &mut self.param_views);
        let (sorted, rest) = sort_views_by(rest, &self.order);
        let mut sorted = sorted;
        let mut rest = rest;
        sorted.append(&mut rest);
        self.param_views = sorted;
    }

    /// Works out, for each view, the parameters it shows; keeps the views
    /// that show any, and returns their page counts. With no views and some
    /// parameters, a view "Default" of all visible parameters comes first.
    pub fn update(&mut self, book: &InstanceBook) -> (pages: Vec<usize>)
        ensures
            final(self).param_views@ == if old(self).param_views@.len() == 0 && book.params@.len() > 0 {
                seq![final(self).param_views@[0]]
            } else {
                old(self).param_views@
            },
            old(self).param_views@.len() == 0 && book.params@.len() > 0 ==> {
                &&& final(self).param_views@[0].spec_name() == "Default"@
                &&& final(self).param_views@[0].spec_params() == visible_pairs(book.params@)
                &&& final(self).param_views@[0].spec_index() == 0
            },
            final(self).name_views() == shown(book, final(self).param_views@).map_values(
                |x: (Seq<char>, Seq<usize>)| x.0,
            ),
            final(self).param_views_of() == shown(book, final(self).param_views@).map_values(
                |x: (Seq<char>, Seq<usize>)| x.1,
            ),
            pages@ == shown(book, final(self).param_views@).map_values(
                |x: (Seq<char>, Seq<usize>)| spec_param_pages(x.1.len()) as usize,
            ),
            final(self).order == old(self).order,
            final(self).lookup == old(self).lookup,
    {
        if self.param_views.len() == 0 && book.params.len() > 0 {
            let mut pairs: Vec<(usize, usize)> = Vec::new();
            let n = book.params.len();
            let mut k: usize = 0;
            while k < n
                invariant
                    n == book.params@.len(),
                    k <= n,
                    pairs@ == visible_pairs(book.params@.take(k as int)),
                decreases n - k,
            {
                assert(book.params@.take(k + 1).drop_last() =~= book.params@.take(k as int));
                let p = &book.params[k];
                if !p.hidden {
                    pairs.push((p.instance_index, p.index));
                }
                k = k + 1;
            }
            assert(book.params@.take(n as int) =~= book.params@);
            self.param_views.push(ParamView::new("Default".to_owned(), pairs, 0));
            proof {
                reveal_strlit("Default");
            }
        }
        let mut names: Vec<String> = Vec::new();
        let mut params: Vec<Vec<usize>> = Vec::new();
        let mut pages: Vec<usize> = Vec::new();
        let n = self.param_views.len();
        let mut k: usize = 0;
        while k < n
            invariant
                n == self.param_views@.len(),
                k <= n,
                names@.map_values(|s: String| s@) == shown(book, self.param_views@.take(k as int)).map_values(
                    |x: (Seq<char>, Seq<usize>)| x.0,
                ),
                params@.map_values(|v: Vec<usize>| v@) == shown(book, self.param_views@.take(k as int)).map_values(
                    |x: (Seq<char>, Seq<usize>)| x.1,
                ),
                pages@ == shown(book, self.param_views@.take(k as int)).map_values(
                    |x: (Seq<char>, Seq<usize>)| spec_param_pages(x.1.len()) as usize,
                ),
            decreases n - k,
        {
            assert(self.param_views@.take(k + 1).drop_last() =~= self.param_views@.take(k as int));
            let ps = resolve_list(book, self.param_views[k].params());
            if ps.len() > 0 {
                let ghost sh = shown(book, self.param_views@.take(k as int));
                let ghost entry = (self.param_views@[k as int].spec_name(), ps@);
                let ghost n0 = names@;
                let ghost p0 = params@;
                let ghost g0 = pages@;
                names.push(self.param_views[k].name().to_owned());
                pages.push(param_pages(ps.len()));
                params.push(ps);
                assert(names@.map_values(|s: String| s@) =~= n0.map_values(|s: String| s@).push(entry.0));
                assert(params@.map_values(|v: Vec<usize>| v@) =~= p0.map_values(|v: Vec<usize>| v@).push(entry.1));
                assert(sh.push(entry).map_values(|x: (Seq<char>, Seq<usize>)| x.0) =~= sh.map_values(
                    |x: (Seq<char>, Seq<usize>)| x.0,
                ).push(entry.0));
                assert(sh.push(entry).map_values(|x: (Seq<char>, Seq<usize>)| x.1) =~= sh.map_values(
                    |x: (Seq<char>, Seq<usize>)| x.1,
                ).push(entry.1));
                assert(sh.push(entry).map_values(
                    |x: (Seq<char>, Seq<usize>)| spec_param_pages(x.1.len()) as usize,
                ) =~= sh.map_values(|x: (Seq<char>, Seq<usize>)| spec_param_pages(x.1.len()) as usize).push(
                    spec_param_pages(entry.1.len()) as usize,
                ));
            }
            k = k + 1;
        }
        assert(self.param_views@.take(n as int) =~= self.param_views@);
        self.names = names;
        self.params = params;
        pages
    }
}

/// The pages of each shown view.
pub open spec fn shown_pages(book: &InstanceBook, vs: Seq<ParamView>) -> Seq<usize> {
    shown(book, vs).map_values(|x: (Seq<char>, Seq<usize>)| spec_param_pages(x.1.len()) as usize)
}

/// Each view's runner index paired with its position.
pub open spec fn positions(vs: Seq<ParamView>) -> Seq<(usize, usize)> {
    Seq::new(vs.len(), |i: int| (vs[i].spec_index(), i as usize))
}

/// The non-negative integers among the arguments, in order.
pub open spec fn view_order_of(args: Seq<ArgView>) -> Seq<usize>
    decreases args.len(),
{
    if args.len() == 0 {
        Seq::empty()
    } else {
        let r = view_order_of(args.drop_last());
        match args.last() {
            ArgView::Int(i) => if i >= 0 {
                r.push(i as usize)
            } else {
                r
            },
            _ => r,
        }
    }
}

/// The last entry for view index `i`.
pub open spec fn lookup_view(m: Seq<(usize, usize)>, i: usize) -> Option<usize>
    decreases m.len(),
{
    if m.len() == 0 {
        None
    } else if m.last().0 == i {
        Some(m.last().1)
    } else {
        lookup_view(m.drop_last(), i)
    }
}

/// `index` and `page` limited to the views and pages there are; `None` when
/// there is no view, or the chosen view has no page.
pub open spec fn clamp_selection(common: &CommonContext, index: usize, page: usize) -> Option<(usize, usize)> {
    let cnt = common.spec_param_view_count();
    if cnt == 0 {
        None
    } else {
        let i = if index < cnt - 1 {
            index
        } else {
            (cnt - 1) as usize
        };
        let pages = common.spec_view_param_pages(i);
        if pages == 0 {
            None
        } else {
            Some((i, if page < pages - 1 {
                page
            } else {
                (pages - 1) as usize
            }))
        }
    }
}

/// Whether the view at the runner's index `view` takes the pairs `args`
/// spell: the index was noted, its position holds a view, and every argument
/// is a string that reads.
pub open spec fn view_params_apply(pre: &Controller, view: usize, args: Seq<ArgView>) -> bool {
    match lookup_view(pre.views.lookup@, view) {
        Some(pos) => pos < pre.views.param_views@.len() && spec_parse_args(args) is Some,
        None => false,
    }
}

/// What taking new parameters for a view does: when they apply, the view
/// takes them, what the views show is worked out again, and the menus hear
/// that the list changed; otherwise nothing changes.
pub open spec fn view_params_effect(pre: &Controller, post: &Controller, view: usize, args: Seq<ArgView>, changed: bool) -> bool {
    &&& changed == view_params_apply(pre, view, args)
    &&& !changed ==> post.unchanged(pre) && post.input == pre.input
    &&& changed ==> {
        let pos = lookup_view(pre.views.lookup@, view)->0;
        let ps = spec_parse_args(args)->0;
        let v = post.views.param_views@[pos as int];
        &&& post.views.param_views@.len() == pre.views.param_views@.len()
        &&& forall|j: int| 0 <= j < pre.views.param_views@.len() && j != pos ==> post.views.param_views@[j]
            == pre.views.param_views@[j]
        &&& v.spec_params() == ps
        &&& v.spec_name() == pre.views.param_views@[pos as int].spec_name()
        &&& v.spec_index() == pre.views.param_views@[pos as int].spec_index()
        &&& post.views.name_views() == shown(&pre.book, post.views.param_views@).map_values(
            |x: (Seq<char>, Seq<usize>)| x.0,
        )
        &&& post.views.param_views_of() == shown(&pre.book, post.views.param_views@).map_values(
            |x: (Seq<char>, Seq<usize>)| x.1,
        )
        &&& post.views.order == pre.views.order
        &&& post.views.lookup == pre.views.lookup
        &&& post.ctx.common.param_view_pages@ == shown_pages(&pre.book, post.views.param_views@)
        &&& post.ctx.common == (CommonContext {
            param_view_pages: post.ctx.common.param_view_pages,
            ..pre.ctx.common
        })
        &&& pre.reviewed(post.views, post.ctx.common).stepped(post, Events::SetViewListChanged)
        &&& post.input == pre.input
    }
}

/// What taking the runner's view order does: the views are sorted again
/// and what they show worked out; the page counts the menus consult stay as
/// they were; the menus hear that the list changed.
pub open spec fn view_order_effect(pre: &Controller, post: &Controller, args: Seq<ArgView>) -> bool {
    let order = view_order_of(args);
    let sorted = sorted_views(pre.views.param_views@, order);
    &&& post.views.order@ == order
    &&& post.views.lookup == pre.views.lookup
    &&& post.views.param_views@ == if sorted.len() == 0 && pre.book.params@.len() > 0 {
        seq![post.views.param_views@[0]]
    } else {
        sorted
    }
    &&& sorted.len() == 0 && pre.book.params@.len() > 0 ==> {
        &&& post.views.param_views@[0].spec_name() == "Default"@
        &&& post.views.param_views@[0].spec_params() == visible_pairs(pre.book.params@)
        &&& post.views.param_views@[0].spec_index() == 0
    }
    &&& post.views.name_views() == shown(&pre.book, post.views.param_views@).map_values(
        |x: (Seq<char>, Seq<usize>)| x.0,
    )
    &&& post.views.param_views_of() == shown(&pre.book, post.views.param_views@).map_values(
        |x: (Seq<char>, Seq<usize>)| x.1,
    )
    &&& pre.reviewed(post.views, pre.ctx.common).stepped(post, Events::SetViewListChanged)
    &&& post.input == pre.input
}

impl Controller {
    /// The views empty, as does the lookup of their addresses.
    pub fn clear_param_views(&mut self)
        ensures
            final(self).views.param_views@.len() == 0,
            final(self).views.lookup@.len() == 0,
            final(self).views.order == old(self).views.order,
            final(self).views.names == old(self).views.names,
            final(self).views.params == old(self).views.params,
            final(self).menus == old(self).menus,
            final(self).ctx == old(self).ctx,
            final(self).midi_out == old(self).midi_out,
            final(self).input == old(self).input,
            final(self).exit == old(self).exit,
            final(self).line_token == old(self).line_token,
            final(self).lights == old(self).lights,
            final(self).lists == old(self).lists,
            final(self).status == old(self).status,
            final(self).book == old(self).book,
            final(self).user_views == old(self).user_views,
    {
        self.views.clear_param_views();
    }

    /// Takes the runner's views: they are sorted by the runner's order,
    /// their addresses noted, what each shows worked out, and the menus hear
    /// that the list changed.
    pub fn set_param_views(&mut self, views: Vec<ParamView>)
        requires
            old(self).wf(),
        ensures
            final(self).wf(),
            final(self).views.lookup@ == positions(sorted_views(views@, old(self).views.order@)),
            final(self).views.param_views@ == if sorted_views(views@, old(self).views.order@).len() == 0
                && old(self).book.params@.len() > 0 {
                seq![final(self).views.param_views@[0]]
            } else {
                sorted_views(views@, old(self).views.order@)
            },
            sorted_views(views@, old(self).views.order@).len() == 0 && old(self).book.params@.len() > 0 ==> {
                &&& final(self).views.param_views@[0].spec_name() == "Default"@
                &&& final(self).views.param_views@[0].spec_params() == visible_pairs(old(self).book.params@)
                &&& final(self).views.param_views@[0].spec_index() == 0
            },
            final(self).views.name_views() == shown(&old(self).book, final(self).views.param_views@).map_values(
                |x: (Seq<char>, Seq<usize>)| x.0,
            ),
            final(self).views.param_views_of() == shown(&old(self).book, final(self).views.param_views@).map_values(
                |x: (Seq<char>, Seq<usize>)| x.1,
            ),
            final(self).views.order == old(self).views.order,
            final(self).ctx.common.param_view_pages@ == shown_pages(&old(self).book, final(self).views.param_views@),
            final(self).ctx.common == (CommonContext {
                param_view_pages: final(self).ctx.common.param_view_pages,
                ..old(self).ctx.common
            }),
            old(self).reviewed(final(self).views, final(self).ctx.common).stepped(
                final(self),
                Events::SetViewListChanged,
            ),
            final(self).input == old(self).input,
    {
        self.views.param_views = views;
        self.views.sort_param_views();
        let mut lookup: Vec<(usize, usize)> = Vec::new();
        let n = self.views.param_views.len();
        let mut k: usize = 0;
        while k < n
            invariant
                n == self.views.param_views@.len(),
                k <= n,
                lookup@ == positions(self.views.param_views@.take(k as int)),
            decreases n - k,
        {
            lookup.push((self.views.param_views[k].index(), k));
            k = k + 1;
            assert(lookup@ =~= positions(self.views.param_views@.take(k as int)));
        }
        assert(self.views.param_views@.take(n as int) =~= self.views.param_views@);
        self.views.lookup = lookup;
        let pages = self.views.update(&self.book);
        self.ctx.common.param_view_pages = pages;
        self.handle_event(Events::SetViewListChanged);
    }

    /// Takes the runner's view order: the non-negative integers among the
    /// arguments. The views are sorted again and what they show worked out;
    /// the page counts the menus consult stay as they were. The menus hear
    /// that the list changed.
    pub fn set_view_order(&mut self, args: &Vec<OscArg>)
        requires
            old(self).wf(),
        ensures
            final(self).wf(),
            view_order_effect(old(self), final(self), args@.map_values(|a: OscArg| a@)),
    {
        let ghost av = args@.map_values(|a: OscArg| a@);
        let mut order: Vec<usize> = Vec::new();
        let n = args.len();
        let mut k: usize = 0;
        while k < n
            invariant
                n == args@.len(),
                k <= n,
                av == args@.map_values(|a: OscArg| a@),
                order@ == view_order_of(av.take(k as int)),
            decreases n - k,
        {
            assert(av.take(k + 1).drop_last() =~= av.take(k as int));
            match &args[k] {
                OscArg::Int(i) => {
                    if *i >= 0 {
                        order.push(*i as usize);
                    }
                },
                _ => {},
            }
            k = k + 1;
        }
        assert(av.take(n as int) =~= av);
        self.views.order = order;
        self.views.sort_param_views();
        let _pages = self.views.update(&self.book);
        self.handle_event(Events::SetViewListChanged);
    }

    /// Takes new parameters for the view at the runner's index `view`, as
    /// `"instance:param"` strings. When the index was noted and its position
    /// holds a view, and every argument is a string that reads, the view
    /// takes the pairs, what the views show is worked out again, and the
    /// menus hear that the list changed; otherwise nothing changes. Returns
    /// whether the view changed.
    pub fn set_view_params(&mut self, view: usize, args: &Vec<OscArg>) -> (changed: bool)
        requires
            old(self).wf(),
        ensures
            final(self).wf(),
            view_params_effect(old(self), final(self), view, args@.map_values(|a: OscArg| a@), changed),
    {
        let pos = find_lookup(&self.views.lookup, view);
        let p = match pos {
            Some(p) => p,
            None => {
                return false;
            },
        };
        if p >= self.views.param_views.len() {
            return false;
        }
        let parsed = parse_args(args);
        match parsed {
            None => false,
            Some(ps) => {
                let ghost before = self.views.param_views@;
                let mut vs: Vec<ParamView> = Vec::new();
                std::mem::swap(&mut vs, &mut self.views.param_views);
                let mut v = vs.remove(p);
                v.set_params(ps);
                vs.insert(p, v);
                assert(vs@.len() == before.len());
                self.views.param_views = vs;
                assert(self.views.param_views@.len() > 0);
                let pages = self.views.update(&self.book);
                self.ctx.common.param_view_pages = pages;
                self.handle_event(Events::SetViewListChanged);
                true
            },
        }
    }

    /// Selects a view and page from the runner, limited to the views and
    /// pages there are; nothing happens when there is no such view or page.
    pub fn select_view(&mut self, index: usize, page: usize)
        requires
            old(self).wf(),
        ensures
            final(self).wf(),
            match clamp_selection(&old(self).ctx.common, index, page) {
                Some((i, p)) => old(self).stepped(final(self), Events::SetViewSelected(i, p)),
                None => old(self).unchanged(final(self)),
            },
            final(self).input == old(self).input,
    {
        let cnt = self.ctx.param_view_count();
        if cnt > 0 {
            let i = if index < cnt - 1 {
                index
            } else {
                cnt - 1
            };
            let pages = self.ctx.view_param_pages(i);
            if pages > 0 {
                let p = if page < pages - 1 {
                    page
                } else {
                    pages - 1
                };
                self.handle_event(Events::SetViewSelected(i, p));
            }
        }
    }

    /// Selects a page of the current view from the runner.
    pub fn select_view_page(&mut self, page: usize)
        requires
            old(self).wf(),
        ensures
            final(self).wf(),
            old(self).stepped(final(self), Events::SetViewPageSelected(page)),
            final(self).input == old(self).input,
    {
        self.handle_event(Events::SetViewPageSelected(page));
    }
}

fn find_lookup(m: &Vec<(usize, usize)>, view: usize) -> (r: Option<usize>)
    ensures
        r == lookup_view(m@, view),
{
    let mut j: usize = m.len();
    assert(m@.take(j as int) =~= m@);
    while j > 0
        invariant
            j <= m@.len(),
            lookup_view(m@, view) == lookup_view(m@.take(j as int), view),
        decreases j,
    {
        assert(m@.take(j as int).drop_last() =~= m@.take(j - 1));
        if m[j - 1].0 == view {
            return Some(m[j - 1].1);
        }
        j = j - 1;
    }
    assert(m@.take(0) =~= Seq::<(usize, usize)>::empty());
    None
}

/// The arguments read as `"instance:param"` pairs, or `None` when one is not
/// a string that reads.
pub open spec fn spec_parse_args(args: Seq<ArgView>) -> Option<Seq<(usize, usize)>>
    decreases args.len(),
{
    if args.len() == 0 {
        Some(Seq::empty())
    } else {
        match (spec_parse_args(args.drop_last()), args.last()) {
            (Some(ps), ArgView::Str(s)) => match spec_parse_pair(vstd::utf8::encode_utf8(s)) {
                Some(p) => Some(ps.push(p)),
                None => None,
            },
            _ => None,
        }
    }
}

proof fn lemma_parse_args_fails(args: Seq<ArgView>, i: int)
    requires
        0 < i <= args.len(),
        spec_parse_args(args.take(i)) is None,
    ensures
        spec_parse_args(args) is None,
    decreases args.len() - i,
{
    if i < args.len() {
        assert(args.take(i + 1).drop_last() =~= args.take(i));
        lemma_parse_args_fails(args, i + 1);
    } else {
        assert(args.take(i) =~= args);
    }
}

fn parse_args(args: &Vec<OscArg>) -> (r: Option<Vec<(usize, usize)>>)
    ensures
        match spec_parse_args(args@.map_values(|a: OscArg| a@)) {
            Some(ps) => r is Some && r->0@ == ps,
            None => r is None,
        },
{
    let ghost av = args@.map_values(|a: OscArg| a@);
    let mut ps: Vec<(usize, usize)> = Vec::new();
    let n = args.len();
    let mut k: usize = 0;
    while k < n
        invariant
            n == args@.len(),
            k <= n,
            av == args@.map_values(|a: OscArg| a@),
            spec_parse_args(av.take(k as int)) == Some(ps@),
        decreases n - k,
    {
        assert(av.take(k + 1).drop_last() =~= av.take(k as int));
        match &args[k] {
            OscArg::Str(s) => match ParamView::parse_param_s(s.as_str()) {
                Ok(p) => ps.push(p),
                Err(_) => {
                    proof {
                        lemma_parse_args_fails(av, k as int + 1);
                    }
                    return None;
                },
            },
            _ => {
                proof {
                    lemma_parse_args_fails(av, k as int + 1);
                }
                return None;
            },
        }
        k = k + 1;
    }
    assert(av.take(n as int) =~= av);
    Some(ps)
}

} // verus!
