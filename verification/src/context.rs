//! The counts the menus consult in their guards, and the queue their actions
//! fill.
use vstd::prelude::*;
use crate::events::Cmd;
use crate::nav::InstSelType;

verus! {

/// The sizes of the lists shown by the menus.
#[derive(Debug)]
pub struct CommonContext {
    pub sets_count: usize,
    pub patchers_count: usize,
    pub set_presets_count: usize,
    /// Instances that have visible parameters.
    pub params_instances_count: usize,
    /// Instances that have visible datarefs.
    pub datarefs_instances_count: usize,
    /// For each instance with visible parameters, its number of pages.
    pub instance_param_pages: Vec<usize>,
    /// For each parameter view, its number of pages.
    pub param_view_pages: Vec<usize>,
    /// For each instance with visible datarefs, its number of datarefs.
    pub dataref_count: Vec<usize>,
    pub datafile_count: usize,
    pub can_exit_powermenu: bool,
}

/// The entry of `v` at `i`, or 0 past its end.
pub open spec fn get_or_zero(v: Seq<usize>, i: int) -> usize {
    if 0 <= i < v.len() {
        v[i]
    } else {
        0
    }
}

impl Clone for CommonContext {
    fn clone(&self) -> (c: Self)
        ensures
            c.same(self),
    {
        let c = CommonContext {
            sets_count: self.sets_count,
            patchers_count: self.patchers_count,
            set_presets_count: self.set_presets_count,
            params_instances_count: self.params_instances_count,
            datarefs_instances_count: self.datarefs_instances_count,
            instance_param_pages: self.instance_param_pages.clone(),
            param_view_pages: self.param_view_pages.clone(),
            dataref_count: self.dataref_count.clone(),
            datafile_count: self.datafile_count,
            can_exit_powermenu: self.can_exit_powermenu,
        };
        assert(c.instance_param_pages@ =~= self.instance_param_pages@);
        assert(c.param_view_pages@ =~= self.param_view_pages@);
        assert(c.dataref_count@ =~= self.dataref_count@);
        c
    }
}

impl CommonContext {
    /// Equal counts, field by field.
    pub open spec fn same(&self, o: &CommonContext) -> bool {
        &&& self.sets_count == o.sets_count
        &&& self.patchers_count == o.patchers_count
        &&& self.set_presets_count == o.set_presets_count
        &&& self.params_instances_count == o.params_instances_count
        &&& self.datarefs_instances_count == o.datarefs_instances_count
        &&& self.instance_param_pages@ == o.instance_param_pages@
        &&& self.param_view_pages@ == o.param_view_pages@
        &&& self.dataref_count@ == o.dataref_count@
        &&& self.datafile_count == o.datafile_count
        &&& self.can_exit_powermenu == o.can_exit_powermenu
    }

    /// Nothing is loaded, and the power menu may be left.
    pub fn new() -> (c: Self)
        ensures
            c.sets_count == 0,
            c.patchers_count == 0,
            c.set_presets_count == 0,
            c.params_instances_count == 0,
            c.datarefs_instances_count == 0,
            c.instance_param_pages@ == Seq::<usize>::empty(),
            c.param_view_pages@ == Seq::<usize>::empty(),
            c.dataref_count@ == Seq::<usize>::empty(),
            c.datafile_count == 0,
            c.can_exit_powermenu,
    {
        CommonContext {
            sets_count: 0,
            patchers_count: 0,
            set_presets_count: 0,
            params_instances_count: 0,
            datarefs_instances_count: 0,
            instance_param_pages: Vec::new(),
            param_view_pages: Vec::new(),
            dataref_count: Vec::new(),
            datafile_count: 0,
            can_exit_powermenu: true,
        }
    }

    pub open spec fn spec_instances_count(&self, typ: InstSelType) -> usize {
        match typ {
            InstSelType::Params => self.params_instances_count,
            InstSelType::Datarefs => self.datarefs_instances_count,
        }
    }

    pub fn instances_count(&self, typ: InstSelType) -> (n: usize)
        ensures
            n == self.spec_instances_count(typ),
    {
        match typ {
            InstSelType::Params => self.params_instances_count,
            InstSelType::Datarefs => self.datarefs_instances_count,
        }
    }

    pub open spec fn spec_instance_param_pages(&self, instance: usize) -> usize {
        get_or_zero(self.instance_param_pages@, instance as int)
    }

    pub fn instance_param_pages(&self, instance: usize) -> (n: usize)
        ensures
            n == self.spec_instance_param_pages(instance),
    {
        if instance < self.instance_param_pages.len() {
            self.instance_param_pages[instance]
        } else {
            0
        }
    }

    pub open spec fn spec_view_param_pages(&self, view: usize) -> usize {
        get_or_zero(self.param_view_pages@, view as int)
    }

    pub fn view_param_pages(&self, view: usize) -> (n: usize)
        ensures
            n == self.spec_view_param_pages(view),
    {
        if view < self.param_view_pages.len() {
            self.param_view_pages[view]
        } else {
            0
        }
    }

    pub open spec fn spec_param_view_count(&self) -> usize {
        self.param_view_pages@.len() as usize
    }

    pub fn param_view_count(&self) -> (n: usize)
        ensures
            n == self.spec_param_view_count(),
    {
        self.param_view_pages.len()
    }

    pub open spec fn spec_dataref_count(&self, index: usize) -> usize {
        get_or_zero(self.dataref_count@, index as int)
    }

    pub fn dataref_count(&self, index: usize) -> (n: usize)
        ensures
            n == self.spec_dataref_count(index),
    {
        if index < self.dataref_count.len() {
            self.dataref_count[index]
        } else {
            0
        }
    }
}

/// The counts, and the commands queued by the menus' actions.
pub struct Context {
    pub queue: Vec<Cmd>,
    pub common: CommonContext,
}

impl Context {
    /// An empty queue and empty counts.
    pub fn new() -> (c: Self)
        ensures
            c.queue@ == Seq::<Cmd>::empty(),
            c.common.sets_count == 0,
            c.common.patchers_count == 0,
            c.common.set_presets_count == 0,
            c.common.params_instances_count == 0,
            c.common.datarefs_instances_count == 0,
            c.common.instance_param_pages@ == Seq::<usize>::empty(),
            c.common.param_view_pages@ == Seq::<usize>::empty(),
            c.common.dataref_count@ == Seq::<usize>::empty(),
            c.common.datafile_count == 0,
            c.common.can_exit_powermenu,
    {
        Context { queue: Vec::new(), common: CommonContext::new() }
    }

    /// Queues a command.
    pub fn emit(&mut self, cmd: Cmd)
        ensures
            final(self).queue@ == old(self).queue@.push(cmd),
            final(self).common == old(self).common,
    {
        self.queue.push(cmd);
    }

    /// Queues commands, in order.
    pub fn emit_all(&mut self, cmds: &Vec<Cmd>)
        ensures
            final(self).queue@ == old(self).queue@ + cmds@,
            final(self).common == old(self).common,
    {
        let mut k: usize = 0;
        let n = cmds.len();
        while k < n
            invariant
                n == cmds@.len(),
                k <= n,
                self.queue@ == old(self).queue@ + cmds@.take(k as int),
                self.common == old(self).common,
            decreases n - k,
        {
            self.emit(cmds[k]);
            k = k + 1;
            assert(cmds@.take(k as int) =~= cmds@.take(k - 1).push(cmds@[k - 1]));
        }
        assert(cmds@.take(n as int) =~= cmds@);
    }

    /// A copy of the counts.
    pub fn common(&self) -> (c: CommonContext)
        ensures
            c.same(&self.common),
    {
        self.common.clone()
    }

    /// Replaces the counts.
    pub fn update_common(&mut self, common: CommonContext)
        ensures
            final(self).common == common,
            final(self).queue@ == old(self).queue@,
    {
        self.common = common;
    }

    pub fn sets_count(&self) -> (n: usize)
        ensures
            n == self.common.sets_count,
    {
        self.common.sets_count
    }

    pub fn patchers_count(&self) -> (n: usize)
        ensures
            n == self.common.patchers_count,
    {
        self.common.patchers_count
    }

    pub fn set_presets_count(&self) -> (n: usize)
        ensures
            n == self.common.set_presets_count,
    {
        self.common.set_presets_count
    }

    pub fn instances_count(&self, typ: InstSelType) -> (n: usize)
        ensures
            n == self.common.spec_instances_count(typ),
    {
        self.common.instances_count(typ)
    }

    pub fn instance_param_pages(&self, instance: usize) -> (n: usize)
        ensures
            n == self.common.spec_instance_param_pages(instance),
    {
        self.common.instance_param_pages(instance)
    }

    pub fn view_param_pages(&self, view: usize) -> (n: usize)
        ensures
            n == self.common.spec_view_param_pages(view),
    {
        self.common.view_param_pages(view)
    }

    pub fn param_view_count(&self) -> (n: usize)
        ensures
            n == self.common.spec_param_view_count(),
    {
        self.common.param_view_count()
    }

    pub fn dataref_count(&self, index: usize) -> (n: usize)
        ensures
            n == self.common.spec_dataref_count(index),
    {
        self.common.dataref_count(index)
    }

    pub fn datafile_count(&self) -> (n: usize)
        ensures
            n == self.common.datafile_count,
    {
        self.common.datafile_count
    }

    pub fn can_exit_powermenu(&self) -> (b: bool)
        ensures
            b == self.common.can_exit_powermenu,
    {
        self.common.can_exit_powermenu
    }
}

} // verus!
