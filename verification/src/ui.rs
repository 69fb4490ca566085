use vstd::prelude::*;

verus! {

/// The menu tab that is currently highlighted.
#[derive(Clone, Copy, PartialEq, Eq, Structural, Debug)]
pub enum MenuItem {
    Domains,
    Lists,
    Members,
    Messages,
    Configure,
}

impl MenuItem {
    /// The position of this tab in the menu row.
    pub open spec fn spec_index(self) -> nat {
        match self {
            MenuItem::Domains => 0,
            MenuItem::Lists => 1,
            MenuItem::Members => 2,
            MenuItem::Messages => 3,
            MenuItem::Configure => 4,
        }
    }

    pub fn index(&self) -> (r: usize)
        ensures
            r as nat == self.spec_index(),
    {
        match self {
            MenuItem::Domains => 0,
            MenuItem::Lists => 1,
            MenuItem::Members => 2,
            MenuItem::Messages => 3,
            MenuItem::Configure => 4,
        }
    }
}

/// Where the cursor lands after one step down, with wraparound.
pub open spec fn down_index(i: nat, len: nat) -> nat {
    if i + 1 >= len {
        0
    } else {
        i + 1
    }
}

/// Where the cursor lands after one step up, with wraparound.
pub open spec fn up_index(i: nat, len: nat) -> nat
    recommends
        len > 0,
{
    if i == 0 {
        (len - 1) as nat
    } else {
        (i - 1) as nat
    }
}

/// The cursor after a sequence of up/down moves (`true` is down), starting at `start`.
pub open spec fn run_moves(start: nat, len: nat, moves: Seq<bool>) -> nat
    decreases moves.len(),
{
    if moves.len() == 0 {
        start
    } else {
        let prev = run_moves(start, len, moves.drop_last());
        if moves.last() {
            down_index(prev, len)
        } else {
            up_index(prev, len)
        }
    }
}

/// The cursor after `k` consecutive down moves from `start`.
pub open spec fn run_downs(start: nat, len: nat, k: nat) -> nat
    decreases k,
{
    if k == 0 {
        start
    } else {
        down_index(run_downs(start, len, (k - 1) as nat), len)
    }
}

/// However the cursor is moved up and down, it stays inside the list.
pub proof fn lemma_moves_in_range(start: nat, len: nat, moves: Seq<bool>)
    requires
        len > 0,
        start < len,
    ensures
        run_moves(start, len, moves) < len,
    decreases moves.len(),
{
    if moves.len() > 0 {
        lemma_moves_in_range(start, len, moves.drop_last());
    }
}

/// `k` consecutive down moves land `k` past the start, modulo the length.
pub proof fn lemma_downs_mod(start: nat, len: nat, k: nat)
    requires
        len > 0,
        start < len,
    ensures
        run_downs(start, len, k) == ((start + k) as int) % (len as int),
    decreases k,
{
    if k == 0 {
        assert((start as int) % (len as int) == start as int) by (nonlinear_arith)
            requires 0 <= start < len;
    } else {
        lemma_downs_mod(start, len, (k - 1) as nat);
        let prev = run_downs(start, len, (k - 1) as nat);
        assert(prev == ((start + (k - 1)) as int) % (len as int));
        assert(prev < len) by (nonlinear_arith)
            requires prev == ((start + (k - 1)) as int) % (len as int), len > 0, 0 <= start + (k - 1);
        if prev + 1 >= len {
            assert(((start + k) as int) % (len as int) == 0) by (nonlinear_arith)
                requires
                    len > 0,
                    0 <= start + (k - 1),
                    prev == ((start + (k - 1)) as int) % (len as int),
                    prev + 1 >= len,
                    prev < len;
        } else {
            assert(((start + k) as int) % (len as int) == prev + 1) by (nonlinear_arith)
                requires
                    len > 0,
                    0 <= start + (k - 1),
                    prev == ((start + (k - 1)) as int) % (len as int),
                    prev + 1 < len;
        }
    }
}

/// From any starting index, as many down moves as the list is long
/// bring the cursor back to where it began.
pub proof fn lemma_full_cycle_of_downs(start: nat, len: nat)
    requires
        len > 0,
        start < len,
    ensures
        run_downs(start, len, len) == start,
{
    lemma_downs_mod(start, len, len);
    assert(((start + len) as int) % (len as int) == start) by (nonlinear_arith)
        requires len > 0, 0 <= start < len;
}

/// The state behind the rendered screen: menu row, the pinned names shown in
/// the header, the list of display lines with its cursor, and the status line.
pub struct Ui {
    pub menu_titles: Vec<String>,
    pub active_menu_item: MenuItem,
    pub sel_domain: Option<String>,
    pub sel_list: Option<String>,
    pub list_vec: Vec<String>,
    pub selected: Option<usize>,
    pub status: String,
}

/// Everything but the cursor agrees between the two states.
pub open spec fn same_but_cursor(a: Ui, b: Ui) -> bool {
    &&& a.menu_titles == b.menu_titles
    &&& a.active_menu_item == b.active_menu_item
    &&& a.sel_domain == b.sel_domain
    &&& a.sel_list == b.sel_list
    &&& a.list_vec == b.list_vec
    &&& a.status == b.status
}

impl Ui {
    /// The cursor, when set, points inside the displayed list.
    pub open spec fn wf(self) -> bool {
        self.selected matches Some(i) ==> (i as nat) < self.list_vec@.len()
    }

    pub open spec fn spec_selected(self) -> Option<usize> {
        self.selected
    }

    pub open spec fn spec_list_vec(self) -> Seq<String> {
        self.list_vec@
    }

    pub open spec fn spec_status(self) -> Seq<char> {
        self.status@
    }

    pub open spec fn spec_active(self) -> MenuItem {
        self.active_menu_item
    }

    pub open spec fn spec_sel_domain(self) -> Option<String> {
        self.sel_domain
    }

    pub open spec fn spec_sel_list(self) -> Option<String> {
        self.sel_list
    }

    pub fn new() -> (ui: Ui)
        ensures
            ui.wf(),
            ui.spec_active() == MenuItem::Domains,
            ui.spec_sel_domain() is None,
            ui.spec_sel_list() is None,
            ui.spec_list_vec().len() == 1,
            ui.spec_list_vec()[0]@ == "waiting"@,
            ui.spec_selected() == Some(0usize),
            ui.spec_status() == Seq::<char>::empty(),
            ui.menu_titles@.len() == 6,
    {
        let mut menu_titles: Vec<String> = Vec::new();
        menu_titles.push(String::from_str("Domains"));
        menu_titles.push(String::from_str("Lists"));
        menu_titles.push(String::from_str("Members"));
        menu_titles.push(String::from_str("Messages"));
        menu_titles.push(String::from_str("Configure"));
        menu_titles.push(String::from_str("Quit"));
        let mut list_vec: Vec<String> = Vec::new();
        list_vec.push(String::from_str("waiting"));
        Ui {
            menu_titles,
            active_menu_item: MenuItem::Domains,
            sel_domain: None,
            sel_list: None,
            list_vec,
            selected: Some(0),
            status: String::new(),
        }
    }

    /// The menu row, for the render hook.
    pub fn menu_titles(&self) -> (r: &Vec<String>)
        ensures
            r == self.menu_titles,
    {
        &self.menu_titles
    }

    pub fn set_active_menu_item(&mut self, menu_item: MenuItem)
        ensures
            final(self).active_menu_item == menu_item,
            final(self).selected == old(self).selected,
            final(self).menu_titles == old(self).menu_titles,
            final(self).sel_domain == old(self).sel_domain,
            final(self).sel_list == old(self).sel_list,
            final(self).list_vec == old(self).list_vec,
            final(self).status == old(self).status,
            old(self).wf() ==> final(self).wf(),
    {
        self.active_menu_item = menu_item;
    }

    pub fn active_menu_item(&self) -> (r: MenuItem)
        ensures
            r == self.active_menu_item,
    {
        self.active_menu_item
    }

    pub fn set_sel_domain(&mut self, sel_domain: Option<String>)
        ensures
            final(self).sel_domain == sel_domain,
            final(self).selected == old(self).selected,
            final(self).menu_titles == old(self).menu_titles,
            final(self).active_menu_item == old(self).active_menu_item,
            final(self).sel_list == old(self).sel_list,
            final(self).list_vec == old(self).list_vec,
            final(self).status == old(self).status,
            old(self).wf() ==> final(self).wf(),
    {
        self.sel_domain = sel_domain;
    }

    pub fn sel_domain(&self) -> (r: &Option<String>)
        ensures
            r == self.sel_domain,
    {
        &self.sel_domain
    }

    pub fn set_sel_list(&mut self, sel_list: Option<String>)
        ensures
            final(self).sel_list == sel_list,
            final(self).selected == old(self).selected,
            final(self).menu_titles == old(self).menu_titles,
            final(self).active_menu_item == old(self).active_menu_item,
            final(self).sel_domain == old(self).sel_domain,
            final(self).list_vec == old(self).list_vec,
            final(self).status == old(self).status,
            old(self).wf() ==> final(self).wf(),
    {
        self.sel_list = sel_list;
    }

    pub fn sel_list(&self) -> (r: &Option<String>)
        ensures
            r == self.sel_list,
    {
        &self.sel_list
    }

    /// Replaces the displayed list; the cursor returns to the top, or goes
    /// away when the new list is empty.
    pub fn set_list_vec(&mut self, list_vec: Vec<String>)
        ensures
            final(self).wf(),
            final(self).list_vec == list_vec,
            list_vec@.len() > 0 ==> final(self).selected == Some(0usize),
            list_vec@.len() == 0 ==> final(self).selected is None,
            final(self).menu_titles == old(self).menu_titles,
            final(self).active_menu_item == old(self).active_menu_item,
            final(self).sel_domain == old(self).sel_domain,
            final(self).sel_list == old(self).sel_list,
            final(self).status == old(self).status,
    {
        let nonempty = list_vec.len() > 0;
        self.list_vec = list_vec;
        self.selected = if nonempty {
            Some(0)
        } else {
            None
        };
    }

    pub fn list_vec(&self) -> (r: &Vec<String>)
        ensures
            r == self.list_vec,
    {
        &self.list_vec
    }

    /// Sets the cursor directly; a set index must lie inside the list.
    pub fn select(&mut self, i: Option<usize>)
        requires
            i matches Some(x) ==> (x as nat) < old(self).list_vec@.len(),
        ensures
            final(self).wf(),
            final(self).selected == i,
            same_but_cursor(*final(self), *old(self)),
    {
        self.selected = i;
    }

    pub fn selected(&self) -> (r: Option<usize>)
        ensures
            r == self.selected,
    {
        self.selected
    }

    pub fn set_status(&mut self, status: String)
        ensures
            final(self).status == status,
            final(self).selected == old(self).selected,
            final(self).menu_titles == old(self).menu_titles,
            final(self).active_menu_item == old(self).active_menu_item,
            final(self).sel_domain == old(self).sel_domain,
            final(self).sel_list == old(self).sel_list,
            final(self).list_vec == old(self).list_vec,
            old(self).wf() ==> final(self).wf(),
    {
        self.status = status;
    }

    pub fn status(&self) -> (r: &String)
        ensures
            r == self.status,
    {
        &self.status
    }

    /// One step down with wraparound; on an empty list the cursor stays away,
    /// and from no cursor it starts at the top.
    pub fn down(&mut self)
        requires
            old(self).wf(),
        ensures
            final(self).wf(),
            same_but_cursor(*final(self), *old(self)),
            old(self).list_vec@.len() == 0 ==> final(self).selected is None,
            old(self).list_vec@.len() > 0 ==> final(self).selected == Some(
                match old(self).selected {
                    Option::Some(i) => down_index(i as nat, old(self).list_vec@.len()) as usize,
                    Option::None => 0usize,
                },
            ),
    {
        if self.list_vec.len() == 0 {
            self.selected = None;
            return ;
        }
        let i: usize = match self.selected {
            Some(i) => {
                if i >= self.list_vec.len() - 1 {
                    0
                } else {
                    i + 1
                }
            },
            None => 0,
        };
        self.selected = Some(i);
    }

    /// One step up with wraparound; on an empty list the cursor stays away,
    /// and from no cursor it starts at the top.
    pub fn up(&mut self)
        requires
            old(self).wf(),
        ensures
            final(self).wf(),
            same_but_cursor(*final(self), *old(self)),
            old(self).list_vec@.len() == 0 ==> final(self).selected is None,
            old(self).list_vec@.len() > 0 ==> final(self).selected == Some(
                match old(self).selected {
                    Option::Some(i) => up_index(i as nat, old(self).list_vec@.len()) as usize,
                    Option::None => 0usize,
                },
            ),
    {
        if self.list_vec.len() == 0 {
            self.selected = None;
            return ;
        }
        let i: usize = match self.selected {
            Some(i) => {
                if i == 0 {
                    self.list_vec.len() - 1
                } else {
                    i - 1
                }
            },
            None => 0,
        };
        self.selected = Some(i);
    }
}

} // verus!
