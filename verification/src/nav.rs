//! Selections that the menus hold: list positions, parameter pages, the
//! dataref and data file pickers.
use vstd::prelude::*;
use crate::events::Cmd;

verus! {

/// Number of parameters shown on one page (one per encoder).
pub const PARAM_PAGE_SIZE: usize = 8;

/// The number of pages needed to show `n` parameters, eight to a page.
pub open spec fn spec_param_pages(n: nat) -> nat {
    if n % 8 == 0 {
        n / 8
    } else {
        n / 8 + 1
    }
}

/// The number of pages needed to show `params` parameters (rounded up).
pub fn param_pages(params: usize) -> (pages: usize)
    ensures
        pages == spec_param_pages(params as nat),
        pages * 8 >= params,
        params > 0 ==> pages > 0,
        pages > 0 ==> (pages - 1) * 8 < params,
{
    params / PARAM_PAGE_SIZE + if params % PARAM_PAGE_SIZE == 0 {
        0
    } else {
        1
    }
}

/// Every item of a menu is selectable.
pub fn all_enabled(_index: usize) -> (b: bool)
    ensures
        b,
{
    true
}

/// The marker drawn beside a leaf menu item.
pub const ITEM_INDICATOR: char = '-';

/// The marker drawn beside an item that opens a sub menu.
pub const SUB_MENU_INDICATOR: char = '>';

/// Every item of a menu is marked as a leaf item.
pub fn default_indicator(_index: usize) -> (c: char)
    ensures
        c == ITEM_INDICATOR,
{
    ITEM_INDICATOR
}

/// What a chosen preset is used for.
#[derive(Copy, Clone, Debug, PartialEq, Eq, Hash, Structural)]
pub enum PresetListOp {
    Load,
    Delete,
    Overwrite,
    SetInitial,
}

/// A position in the list of presets, and what choosing one does.
#[derive(Copy, Clone, Debug, PartialEq, Eq, Hash, Structural)]
pub struct PresetListState {
    pub op: PresetListOp,
    pub selected: usize,
}

impl PresetListState {
    /// Starts at the first preset.
    pub fn new(op: PresetListOp) -> (s: Self)
        ensures
            s.op == op,
            s.selected == 0,
    {
        Self { op, selected: 0 }
    }

    pub fn op(&self) -> (o: PresetListOp)
        ensures
            o == self.op,
    {
        self.op
    }

    pub fn selected(&self) -> (i: usize)
        ensures
            i == self.selected,
    {
        self.selected
    }

    /// The next preset; the caller checks that there is one.
    pub fn next(&self) -> (s: Self)
        requires
            self.selected < usize::MAX,
        ensures
            s.op == self.op,
            s.selected == self.selected + 1,
    {
        Self { op: self.op, selected: self.selected + 1 }
    }

    pub fn can_go_prev(&self) -> (b: bool)
        ensures
            b == (self.selected > 0),
    {
        self.selected > 0
    }

    /// The previous preset, staying at the first one.
    pub fn prev(&self) -> (s: Self)
        ensures
            s.op == self.op,
            s.selected == if self.selected > 0 {
                (self.selected - 1) as usize
            } else {
                0
            },
    {
        let selected = if self.can_go_prev() {
            self.selected - 1
        } else {
            0
        };
        Self { op: self.op, selected }
    }
}

/// Which kind of instance list is shown.
#[derive(Copy, Clone, Debug, PartialEq, Eq, Hash, Structural)]
pub enum InstSelType {
    Params,
    Datarefs,
}

/// A position in a list of `count` instances.
#[derive(Copy, Clone, Debug, PartialEq, Eq, Structural)]
pub struct InstSel {
    pub selected: usize,
    pub count: usize,
    pub typ: InstSelType,
}

impl InstSel {
    pub fn new(typ: InstSelType, selected: usize, count: usize) -> (s: Self)
        ensures
            s == (InstSel { selected, count, typ }),
    {
        Self { selected, count, typ }
    }

    /// Starts at the first instance.
    pub fn enter(typ: InstSelType, count: usize) -> (s: Self)
        ensures
            s == (InstSel { selected: 0, count, typ }),
    {
        Self { selected: 0, count, typ }
    }

    pub fn selected(&self) -> (i: usize)
        ensures
            i == self.selected,
    {
        self.selected
    }

    pub fn typ(&self) -> (t: InstSelType)
        ensures
            t == self.typ,
    {
        self.typ
    }

    pub open spec fn spec_can_go_next(&self) -> bool {
        self.selected + 1 < self.count
    }

    pub fn can_go_next(&self) -> (b: bool)
        ensures
            b == self.spec_can_go_next(),
    {
        self.selected < self.count && self.count - self.selected > 1
    }

    pub fn can_go_prev(&self) -> (b: bool)
        ensures
            b == (self.selected > 0),
    {
        self.selected > 0
    }

    pub open spec fn spec_next(&self) -> InstSel {
        if self.selected + 1 < self.count {
            InstSel { selected: (self.selected + 1) as usize, ..*self }
        } else {
            *self
        }
    }

    /// Moves to the next instance if there is one.
    pub fn next(&self) -> (s: Self)
        ensures
            s == self.spec_next(),
    {
        let mut v = *self;
        if self.can_go_next() {
            v.selected = self.selected + 1;
        }
        v
    }

    pub open spec fn spec_prev(&self) -> InstSel {
        if self.selected > 0 {
            InstSel { selected: (self.selected - 1) as usize, ..*self }
        } else {
            *self
        }
    }

    /// Moves to the previous instance if there is one.
    pub fn prev(&self) -> (s: Self)
        ensures
            s == self.spec_prev(),
    {
        let mut v = *self;
        if v.selected > 0 {
            v.selected = v.selected - 1;
        }
        v
    }

    /// Back to the first instance.
    pub fn restart(&self) -> (s: Self)
        ensures
            s == (InstSel { selected: 0, ..*self }),
    {
        let mut v = *self;
        v.selected = 0;
        v
    }
}

/// A page of parameters of one instance or view, and the encoder last touched.
#[derive(Copy, Clone, Debug, PartialEq, Eq, Structural)]
pub struct ParamPage {
    /// Index into the list shown, not the instance index.
    pub index: usize,
    pub page: usize,
    pub focused: Option<usize>,
}

impl ParamPage {
    /// The page `offset` pages away, stopping at the first page.
    pub fn offset_page(&self, offset: isize) -> (p: usize)
        requires
            self.page <= isize::MAX,
            self.page + offset <= isize::MAX,
        ensures
            p == if self.page + offset < 0 {
                0
            } else {
                self.page + offset
            },
    {
        let v = self.page as isize + offset;
        if v < 0 {
            0
        } else {
            v as usize
        }
    }

    /// This page moved by `offset` pages, stopping at the first page.
    pub fn with_offset_page(&self, offset: isize) -> (p: Self)
        requires
            self.page <= isize::MAX,
            self.page + offset <= isize::MAX,
        ensures
            p.index == self.index,
            p.focused == self.focused,
            p.page == if self.page + offset < 0 {
                0
            } else {
                self.page + offset
            },
    {
        let mut p = *self;
        p.page = self.offset_page(offset);
        p
    }

    /// This page with encoder `index` focused.
    pub fn with_focus(&self, index: usize) -> (p: Self)
        ensures
            p == (ParamPage { focused: Some(index), ..*self }),
    {
        let mut p = *self;
        p.focused = Some(index);
        p
    }
}

/// A position in the visible datarefs of one instance.
#[derive(Copy, Clone, Debug, PartialEq, Eq, Structural)]
pub struct DataSel {
    /// Index into the list of instances that have datarefs.
    pub instance: usize,
    pub selected: usize,
    pub count: usize,
}

impl DataSel {
    /// Starts at the first of `dataref_count` datarefs.
    pub fn new(instance: usize, dataref_count: usize) -> (s: Self)
        ensures
            s == (DataSel { instance, selected: 0, count: dataref_count }),
    {
        Self { instance, selected: 0, count: dataref_count }
    }

    pub fn instance(&self) -> (i: usize)
        ensures
            i == self.instance,
    {
        self.instance
    }

    pub fn selected(&self) -> (i: usize)
        ensures
            i == self.selected,
    {
        self.selected
    }

    pub fn can_go_prev(&self) -> (b: bool)
        ensures
            b == (self.selected > 0),
    {
        self.selected > 0
    }

    pub open spec fn spec_can_go_next(&self) -> bool {
        self.selected + 1 < self.count
    }

    pub fn can_go_next(&self) -> (b: bool)
        ensures
            b == self.spec_can_go_next(),
    {
        self.selected < self.count && self.count - self.selected > 1
    }

    pub open spec fn spec_prev(&self) -> DataSel {
        if self.selected > 0 {
            DataSel { selected: (self.selected - 1) as usize, ..*self }
        } else {
            *self
        }
    }

    pub fn prev(&self) -> (s: DataSel)
        ensures
            s == self.spec_prev(),
    {
        let mut v = *self;
        if self.can_go_prev() {
            v.selected = v.selected - 1;
        }
        v
    }

    pub open spec fn spec_next(&self) -> DataSel {
        if self.selected + 1 < self.count {
            DataSel { selected: (self.selected + 1) as usize, ..*self }
        } else {
            *self
        }
    }

    pub fn next(&self) -> (s: DataSel)
        ensures
            s == self.spec_next(),
    {
        let mut v = *self;
        if self.can_go_next() {
            v.selected = v.selected + 1;
        }
        v
    }
}

/// A position in the list of data files offered for one dataref.
#[derive(Copy, Clone, Debug, PartialEq, Eq, Structural)]
pub struct DataLoad {
    pub dataref: DataSel,
    pub selected: usize,
    pub filecount: usize,
}

impl DataLoad {
    /// Starts at the first of `filecount` menu entries.
    pub fn new(dataref: DataSel, filecount: usize) -> (s: Self)
        ensures
            s == (DataLoad { dataref, selected: 0, filecount }),
    {
        Self { dataref, selected: 0, filecount }
    }

    /// The command that loads the selected file into the selected dataref.
    pub fn dataload_cmd(&self) -> (c: Cmd)
        ensures
            c == Cmd::LoadDataref(self.dataref.instance, self.dataref.selected, self.selected),
    {
        Cmd::LoadDataref(self.dataref.instance(), self.dataref.selected(), self.selected)
    }

    pub fn dataref(&self) -> (d: DataSel)
        ensures
            d == self.dataref,
    {
        self.dataref
    }

    pub fn selected(&self) -> (i: usize)
        ensures
            i == self.selected,
    {
        self.selected
    }

    pub fn can_go_prev(&self) -> (b: bool)
        ensures
            b == (self.selected > 0),
    {
        self.selected > 0
    }

    pub open spec fn spec_can_go_next(&self) -> bool {
        self.selected + 1 < self.filecount
    }

    pub fn can_go_next(&self) -> (b: bool)
        ensures
            b == self.spec_can_go_next(),
    {
        self.selected < self.filecount && self.filecount - self.selected > 1
    }

    pub open spec fn spec_prev(&self) -> DataLoad {
        if self.selected > 0 {
            DataLoad { selected: (self.selected - 1) as usize, ..*self }
        } else {
            *self
        }
    }

    pub fn prev(&self) -> (s: Self)
        ensures
            s == self.spec_prev(),
    {
        let mut v = *self;
        if self.can_go_prev() {
            v.selected = v.selected - 1;
        }
        v
    }

    pub open spec fn spec_next(&self) -> DataLoad {
        if self.selected + 1 < self.filecount {
            DataLoad { selected: (self.selected + 1) as usize, ..*self }
        } else {
            *self
        }
    }

    pub fn next(&self) -> (s: Self)
        ensures
            s == self.spec_next(),
    {
        let mut v = *self;
        if self.can_go_next() {
            v.selected = v.selected + 1;
        }
        v
    }
}

/// A file picker after a run of moves, each made by `DataLoad::next`
/// (`true`) or `DataLoad::prev` (`false`), in order.
pub open spec fn after_moves(l: DataLoad, moves: Seq<bool>) -> DataLoad
    decreases moves.len(),
{
    if moves.len() == 0 {
        l
    } else {
        let m = after_moves(l, moves.drop_last());
        if moves.last() {
            m.spec_next()
        } else {
            m.spec_prev()
        }
    }
}

/// The file picker that `DataLoad::new(ds, n)` opens starts on its first
/// entry; after any run of `next` and `prev` it still holds the dataref
/// selection `ds` (so going back from the file list returns to it) and its
/// `n` entries, and, when there are entries, stays on one of them.
pub proof fn law_dataload_keeps_dataref(ds: DataSel, n: usize, moves: Seq<bool>)
    ensures
        (DataLoad { dataref: ds, selected: 0, filecount: n }).selected == 0,
        after_moves(DataLoad { dataref: ds, selected: 0, filecount: n }, moves).dataref == ds,
        after_moves(DataLoad { dataref: ds, selected: 0, filecount: n }, moves).filecount == n,
        n > 0 ==> after_moves(DataLoad { dataref: ds, selected: 0, filecount: n }, moves).selected < n,
    decreases moves.len(),
{
    if moves.len() > 0 {
        law_dataload_keeps_dataref(ds, n, moves.drop_last());
    }
}

/// Which of the requested process capabilities were granted.
#[derive(Copy, Clone, Debug, PartialEq, Eq, Structural)]
pub struct Caps {
    pub memlock: bool,
    pub rtprio: bool,
}

impl Caps {
    /// Both capabilities were granted.
    pub fn all(&self) -> (b: bool)
        ensures
            b == (self.memlock && self.rtprio),
    {
        self.memlock && self.rtprio
    }
}

} // verus!
