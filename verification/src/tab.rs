//! Terminal tabs and the bar that lists them.

use vstd::prelude::*;

verus! {

/// The shell that runs in a tab, as the operating system knows it.
#[derive(Clone, Copy, Debug, PartialEq, Eq, Structural)]
pub struct ShellProcess {
    /// File descriptor of the master side of the pseudoterminal.
    pub master_fd: i32,
    /// Process id of the shell.
    pub shell_pid: u32,
}

/// One terminal of a window.
///
/// `terminal` is the handle by which the embedding program reaches the terminal
/// and its input loop. It is carried along and never looked at.
pub struct TerminalTab<H> {
    pub id: u64,
    pub title: String,
    pub preserve_title: bool,
    /// The shell of the tab, on platforms where it can be asked for its directory.
    pub process: Option<ShellProcess>,
    pub terminal: H,
}

/// What a [`TerminalTab`] stands for in contracts.
pub struct TabModel<H> {
    pub id: u64,
    pub title: Seq<char>,
    pub preserve_title: bool,
    pub process: Option<ShellProcess>,
    pub terminal: H,
}

impl<H> View for TerminalTab<H> {
    type V = TabModel<H>;

    open spec fn view(&self) -> TabModel<H> {
        TabModel {
            id: self.id,
            title: self.title@,
            preserve_title: self.preserve_title,
            process: self.process,
            terminal: self.terminal,
        }
    }
}

/// The tabs of a vector, in order.
pub open spec fn tab_models<H>(tabs: Seq<TerminalTab<H>>) -> Seq<TabModel<H>> {
    Seq::new(tabs.len(), |i: int| tabs[i]@)
}

/// The titles of `tabs`, in order.
pub open spec fn tab_titles<H>(tabs: Seq<TabModel<H>>) -> Seq<Seq<char>> {
    Seq::new(tabs.len(), |i: int| tabs[i].title)
}

/// `index` is the first place in `tabs` that holds the tab `id`.
pub open spec fn first_with_id<H>(tabs: Seq<TabModel<H>>, id: u64, index: int) -> bool {
    &&& 0 <= index < tabs.len()
    &&& tabs[index].id == id
    &&& forall|j: int| 0 <= j < index ==> (#[trigger] tabs[j]).id != id
}

/// Where the tab `id` stands in `tabs`, if it is one of them.
pub open spec fn position_of<H>(tabs: Seq<TabModel<H>>, id: u64) -> Option<int> {
    if exists|index: int| first_with_id(tabs, id, index) {
        Some(choose|index: int| first_with_id(tabs, id, index))
    } else {
        None
    }
}

/// What the tab bar shows: every title, and which tab is active.
pub struct TabBar {
    pub titles: Vec<String>,
    pub active: usize,
}

/// What a [`TabBar`] stands for in contracts.
#[verifier::ext_equal]
pub struct TabBarModel {
    pub titles: Seq<Seq<char>>,
    pub active: int,
}

impl View for TabBar {
    type V = TabBarModel;

    open spec fn view(&self) -> TabBarModel {
        TabBarModel {
            titles: Seq::new(self.titles@.len(), |i: int| self.titles@[i]@),
            active: self.active as int,
        }
    }
}

/// A place in the tab bar that was clicked.
#[derive(Clone, Copy, Debug, PartialEq, Eq, Structural)]
pub enum TabBarHit {
    Select(usize),
    Close(usize),
}

/// Collects what the tab bar has to show.
pub(crate) fn tab_bar<H>(tabs: &Vec<TerminalTab<H>>, active: usize) -> (bar: TabBar)
    ensures
        bar@ == (TabBarModel { titles: tab_titles(tab_models(tabs@)), active: active as int }),
{
    let mut titles: Vec<String> = Vec::new();
    for i in 0..tabs.len()
        invariant
            titles@.len() == i,
            forall|j: int| 0 <= j < i ==> (#[trigger] titles@[j])@ == tabs@[j].title@,
    {
        titles.push(tabs[i].title.clone());
    }
    let bar = TabBar { titles, active };
    assert(bar@.titles =~= tab_titles(tab_models(tabs@)));
    bar
}

/// Finds the tab with the given id.
pub(crate) fn position<H>(tabs: &Vec<TerminalTab<H>>, id: u64) -> (found: Option<usize>)
    ensures
        found is Some <==> position_of(tab_models(tabs@), id) is Some,
        found matches Some(index) ==> position_of(tab_models(tabs@), id) == Some(index as int)
            && first_with_id(tab_models(tabs@), id, index as int),
{
    let ghost models = tab_models(tabs@);
    for i in 0..tabs.len()
        invariant
            models == tab_models(tabs@),
            forall|j: int| 0 <= j < i ==> (#[trigger] models[j]).id != id,
    {
        if tabs[i].id == id {
            proof {
                assert(models[i as int].id == id);
                assert(first_with_id(models, id, i as int));
                let chosen = choose|index: int| first_with_id(models, id, index);
                assert(first_with_id(models, id, chosen));
                assert(chosen == i as int) by {
                    if chosen < i as int {
                        assert(models[chosen].id != id);
                    }
                    if (i as int) < chosen {
                        assert(models[i as int].id != id);
                    }
                }
            }
            return Some(i);
        }
    }
    proof {
        if exists|index: int| first_with_id(models, id, index) {
            let index = choose|index: int| first_with_id(models, id, index);
            assert(models[index].id != id);
        }
    }
    None
}

} // verus!
