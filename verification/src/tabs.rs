//! The tab registry: the ordered collection of open tabs, the id of the
//! active tab and the counter from which fresh ids are drawn.
//!
//! Every operation is first defined on a mathematical model,
//! [`RegistryView`], and the executable [`TabRegistry`] is proved to follow
//! that model step by step. The laws at the end of the file are stated and
//! proved on the model.

use crate::address::{page_title, title_for, url_host};
use vstd::prelude::*;

verus! {

/// The title a tab carries until its first navigation.
pub const NEW_TAB_TITLE: &'static str = "New Tab";

/// The title a tab carries until its first navigation.
pub open spec fn new_tab_title() -> Seq<char> {
    NEW_TAB_TITLE@
}

/// One browsing context.
#[derive(Debug, Clone, PartialEq, Eq)]
pub struct Tab {
    pub id: usize,
    pub url: String,
    pub title: String,
}

/// What a [`Tab`] stands for in contracts.
pub struct TabView {
    pub id: nat,
    pub url: Seq<char>,
    pub title: Seq<char>,
}

impl View for Tab {
    type V = TabView;

    open spec fn view(&self) -> TabView {
        TabView { id: self.id as nat, url: self.url@, title: self.title@ }
    }
}

impl DeepView for Tab {
    type V = TabView;

    open spec fn deep_view(&self) -> TabView {
        self@
    }
}

/// What closing a tab did.
#[derive(Debug, Clone, PartialEq, Eq)]
pub enum CloseOutcome {
    /// Only one tab was open: it stays, and nothing changed.
    Refused,
    /// No open tab has the id: nothing changed.
    NotFound,
    /// The tab is gone. If it was the active one, `navigate_to` is the
    /// address of the tab that took its place.
    Closed { navigate_to: Option<String> },
}

/// What a [`CloseOutcome`] stands for in contracts.
pub enum CloseOutcomeView {
    Refused,
    NotFound,
    Closed { navigate_to: Option<Seq<char>> },
}

impl View for CloseOutcome {
    type V = CloseOutcomeView;

    open spec fn view(&self) -> CloseOutcomeView {
        match self {
            CloseOutcome::Refused => CloseOutcomeView::Refused,
            CloseOutcome::NotFound => CloseOutcomeView::NotFound,
            CloseOutcome::Closed { navigate_to } => CloseOutcomeView::Closed {
                navigate_to: navigate_to.deep_view(),
            },
        }
    }
}

/// The index of the first tab of `tabs` whose id is `id`, or `tabs.len()`
/// if there is none.
pub open spec fn position(tabs: Seq<TabView>, id: nat) -> int
    decreases tabs.len(),
{
    if tabs.len() == 0 {
        0
    } else if tabs[0].id == id {
        0
    } else {
        1 + position(tabs.drop_first(), id)
    }
}

/// The ids of `tabs` grow strictly from left to right.
pub open spec fn ids_increasing(tabs: Seq<TabView>) -> bool {
    forall|i: int, j: int| 0 <= i < j < tabs.len() ==> tabs[i].id < tabs[j].id
}

/// The model of a tab registry.
pub struct RegistryView {
    /// The open tabs, in display order.
    pub tabs: Seq<TabView>,
    /// The id of the active tab.
    pub active: nat,
    /// The id that the next new tab will get.
    pub next_id: nat,
}

impl RegistryView {
    /// Some open tab has the id.
    pub open spec fn contains(self, id: nat) -> bool {
        exists|i: int| 0 <= i < self.tabs.len() && self.tabs[i].id == id
    }

    /// The registry's invariant: at least one tab is open, the ids grow
    /// along the sequence (so none occurs twice), every id is below the
    /// counter, and the active id is that of an open tab.
    pub open spec fn wf(self) -> bool {
        &&& self.tabs.len() >= 1
        &&& ids_increasing(self.tabs)
        &&& forall|i: int| 0 <= i < self.tabs.len() ==> self.tabs[i].id < self.next_id
        &&& self.contains(self.active)
    }

    /// The registry at startup: one tab with id 1, which is active.
    pub open spec fn initial(url: Seq<char>) -> RegistryView {
        RegistryView {
            tabs: seq![TabView { id: 1, url: url, title: new_tab_title() }],
            active: 1,
            next_id: 2,
        }
    }

    /// The address of the active tab, if the active id is that of an open tab.
    pub open spec fn active_url(self) -> Option<Seq<char>> {
        let at = position(self.tabs, self.active);
        if at < self.tabs.len() {
            Some(self.tabs[at].url)
        } else {
            None
        }
    }

    /// Appends a tab with a fresh id and makes it active.
    pub open spec fn new_tab(self, url: Seq<char>) -> RegistryView {
        RegistryView {
            tabs: self.tabs.push(TabView { id: self.next_id, url: url, title: new_tab_title() }),
            active: self.next_id,
            next_id: self.next_id + 1,
        }
    }

    /// A close of `id` removes a tab: more than one tab is open and one of
    /// them has the id.
    pub open spec fn closes(self, id: nat) -> bool {
        self.tabs.len() > 1 && position(self.tabs, id) < self.tabs.len()
    }

    /// The index, among the tabs that remain, of the tab that replaces a
    /// closed tab that stood at `at`: the same index, or the last one if the
    /// closed tab was last.
    pub open spec fn replacement_index(self, at: int) -> int {
        if at < self.tabs.len() - 1 {
            at
        } else {
            self.tabs.len() - 2
        }
    }

    /// Removes the tab with the given id, unless it is the only one. If it
    /// was active, the tab at the replacement index becomes active.
    pub open spec fn close_tab(self, id: nat) -> RegistryView {
        if self.closes(id) {
            let at = position(self.tabs, id);
            let rest = self.tabs.remove(at);
            RegistryView {
                tabs: rest,
                active: if self.active == id {
                    rest[self.replacement_index(at)].id
                } else {
                    self.active
                },
                next_id: self.next_id,
            }
        } else {
            self
        }
    }

    /// What a close of `id` reports.
    pub open spec fn close_outcome(self, id: nat) -> CloseOutcomeView {
        if self.tabs.len() <= 1 {
            CloseOutcomeView::Refused
        } else if position(self.tabs, id) >= self.tabs.len() {
            CloseOutcomeView::NotFound
        } else {
            CloseOutcomeView::Closed {
                navigate_to: if self.active == id {
                    Some(self.close_tab(id).tabs[self.replacement_index(position(self.tabs, id))].url)
                } else {
                    None
                },
            }
        }
    }

    /// Makes `id` active if a tab has it; changes nothing otherwise.
    pub open spec fn switch_tab(self, id: nat) -> RegistryView {
        if position(self.tabs, id) < self.tabs.len() {
            RegistryView { active: id, ..self }
        } else {
            self
        }
    }

    /// The address that a switch to `id` hands back: that of the tab, or
    /// nothing if no tab has the id.
    pub open spec fn switch_target(self, id: nat) -> Option<Seq<char>> {
        let at = position(self.tabs, id);
        if at < self.tabs.len() {
            Some(self.tabs[at].url)
        } else {
            None
        }
    }

    /// Gives the active tab a new address and title.
    pub open spec fn navigate_active(self, url: Seq<char>, title: Seq<char>) -> RegistryView {
        let at = position(self.tabs, self.active);
        if at < self.tabs.len() {
            RegistryView {
                tabs: self.tabs.update(at, TabView { id: self.active, url: url, title: title }),
                ..self
            }
        } else {
            self
        }
    }
}

/// `position` finds the first tab with the id, and only reports the length
/// when no tab has it.
pub proof fn lemma_position(tabs: Seq<TabView>, id: nat)
    ensures
        0 <= position(tabs, id) <= tabs.len(),
        position(tabs, id) < tabs.len() ==> tabs[position(tabs, id)].id == id,
        forall|j: int| 0 <= j < position(tabs, id) ==> tabs[j].id != id,
    decreases tabs.len(),
{
    if tabs.len() > 0 && tabs[0].id != id {
        let rest = tabs.drop_first();
        lemma_position(rest, id);
        assert forall|j: int| 0 <= j < position(tabs, id) implies tabs[j].id != id by {
            if j > 0 {
                assert(tabs[j] == rest[j - 1]);
            }
        }
    }
}

/// If no tab before `at` has the id, and `at` is the end or the tab there
/// has it, then `at` is the id's position.
pub proof fn lemma_position_is(tabs: Seq<TabView>, id: nat, at: int)
    requires
        0 <= at <= tabs.len(),
        forall|j: int| 0 <= j < at ==> tabs[j].id != id,
        at < tabs.len() ==> tabs[at].id == id,
    ensures
        position(tabs, id) == at,
{
    lemma_position(tabs, id);
    let p = position(tabs, id);
    if p < at {
        assert(tabs[p].id != id);
    }
}

/// The open tabs, the active tab and the id counter.
pub struct TabRegistry {
    tabs: Vec<Tab>,
    active_id: usize,
    next_id: usize,
}

impl View for TabRegistry {
    type V = RegistryView;

    closed spec fn view(&self) -> RegistryView {
        RegistryView {
            tabs: self.tabs.deep_view(),
            active: self.active_id as nat,
            next_id: self.next_id as nat,
        }
    }
}

impl TabRegistry {
    /// The invariant that every operation keeps: see [`RegistryView::wf`].
    pub open spec fn wf(&self) -> bool {
        self@.wf()
    }

    /// A registry with one tab, which shows `initial_url`.
    pub fn new(initial_url: String) -> (registry: TabRegistry)
        ensures
            registry@ == RegistryView::initial(initial_url@),
            registry.wf(),
    {
        let mut tabs: Vec<Tab> = Vec::new();
        tabs.push(Tab { id: 1, url: initial_url, title: NEW_TAB_TITLE.to_string() });
        let registry = TabRegistry { tabs, active_id: 1, next_id: 2 };
        proof {
            assert(registry@.tabs =~= RegistryView::initial(initial_url@).tabs);
            assert(registry@.tabs[0].id == 1);
        }
        registry
    }

    /// The number of open tabs.
    pub fn len(&self) -> (n: usize)
        ensures
            n == self@.tabs.len(),
    {
        self.tabs.len()
    }

    /// The id of the active tab.
    pub fn active_id(&self) -> (id: usize)
        ensures
            id == self@.active,
    {
        self.active_id
    }

    /// The index of the tab with the given id, or the number of tabs if
    /// none has it.
    fn find(&self, id: usize) -> (at: usize)
        ensures
            at == position(self@.tabs, id as nat),
            at <= self.tabs.len(),
    {
        let mut at: usize = 0;
        while at < self.tabs.len() && self.tabs[at].id != id
            invariant
                at <= self.tabs.len(),
                forall|j: int| 0 <= j < at ==> self@.tabs[j].id != id,
            decreases self.tabs.len() - at,
        {
            at += 1;
        }
        proof {
            lemma_position_is(self@.tabs, id as nat, at as int);
        }
        at
    }

    /// Whether a fresh id is left for one more tab.
    pub fn can_open_tab(&self) -> (free: bool)
        ensures
            free == (self@.next_id < usize::MAX),
    {
        self.next_id < usize::MAX
    }

    /// Opens a tab on `default_url`, makes it active and returns its id.
    pub fn new_tab(&mut self, default_url: String) -> (id: usize)
        requires
            old(self).wf(),
            old(self)@.next_id < usize::MAX,
        ensures
            final(self)@ == old(self)@.new_tab(default_url@),
            id == old(self)@.next_id,
            final(self).wf(),
    {
        let id = self.next_id;
        self.tabs.push(Tab { id, url: default_url, title: NEW_TAB_TITLE.to_string() });
        self.active_id = id;
        self.next_id = id + 1;
        proof {
            assert(self@.tabs =~= old(self)@.new_tab(default_url@).tabs);
            lemma_new_tab_wf(old(self)@, default_url@);
        }
        id
    }

    /// Closes the tab with the given id, unless it is the only one.
    pub fn close_tab(&mut self, id: usize) -> (outcome: CloseOutcome)
        requires
            old(self).wf(),
        ensures
            final(self)@ == old(self)@.close_tab(id as nat),
            outcome@ == old(self)@.close_outcome(id as nat),
            final(self).wf(),
    {
        if self.tabs.len() <= 1 {
            return CloseOutcome::Refused;
        }
        let at = self.find(id);
        if at >= self.tabs.len() {
            return CloseOutcome::NotFound;
        }
        let _closed = self.tabs.remove(at);
        proof {
            assert(self.tabs.deep_view() =~= old(self)@.tabs.remove(at as int));
            lemma_close_tab_wf(old(self)@, id as nat);
        }
        if self.active_id == id {
            let last = self.tabs.len() - 1;
            let slot = if at < last { at } else { last };
            self.active_id = self.tabs[slot].id;
            let target = self.tabs[slot].url.clone();
            CloseOutcome::Closed { navigate_to: Some(target) }
        } else {
            CloseOutcome::Closed { navigate_to: None }
        }
    }

    /// Makes the tab with the given id active and returns its address, or
    /// returns nothing and changes nothing if no tab has the id.
    pub fn switch_tab(&mut self, id: usize) -> (target: Option<String>)
        requires
            old(self).wf(),
        ensures
            final(self)@ == old(self)@.switch_tab(id as nat),
            target.deep_view() == old(self)@.switch_target(id as nat),
            final(self).wf(),
    {
        let at = self.find(id);
        if at < self.tabs.len() {
            self.active_id = id;
            proof {
                lemma_position(old(self)@.tabs, id as nat);
            }
            Some(self.tabs[at].url.clone())
        } else {
            None
        }
    }

    /// A copy of the open tabs, in display order, with the active id.
    pub fn snapshot(&self) -> (copy: (Vec<Tab>, usize))
        ensures
            copy.0.deep_view() == self@.tabs,
            copy.1 == self@.active,
    {
        let mut tabs: Vec<Tab> = Vec::new();
        let mut i: usize = 0;
        while i < self.tabs.len()
            invariant
                i <= self.tabs.len(),
                tabs.len() == i,
                forall|j: int| 0 <= j < i ==> tabs[j]@ == self.tabs[j]@,
            decreases self.tabs.len() - i,
        {
            let tab = &self.tabs[i];
            tabs.push(Tab { id: tab.id, url: tab.url.clone(), title: tab.title.clone() });
            i += 1;
        }
        proof {
            assert(tabs.deep_view() =~= self.tabs.deep_view());
        }
        (tabs, self.active_id)
    }

    /// The address of the active tab.
    pub fn active_url(&self) -> (url: String)
        requires
            self.wf(),
        ensures
            self@.active_url() == Some(url@),
    {
        let at = self.find(self.active_id);
        proof {
            lemma_position(self@.tabs, self@.active);
        }
        self.tabs[at].url.clone()
    }

    /// Points the active tab at `url` and derives its title from the
    /// address: the host, or the fallback title where the address does not
    /// parse or has no host. The address itself is kept as given.
    pub fn navigate_active(&mut self, url: String)
        requires
            old(self).wf(),
        ensures
            final(self)@ == old(self)@.navigate_active(url@, title_for(url_host(url@))),
            final(self).wf(),
    {
        let title = page_title(url.as_str());
        let at = self.find(self.active_id);
        proof {
            lemma_position(self@.tabs, self@.active);
            lemma_navigate_wf(self@, url@, title@);
        }
        self.tabs.set(at, Tab { id: self.active_id, url, title });
        proof {
            assert(self@.tabs =~= old(self)@.navigate_active(url@, title@).tabs);
        }
    }
}

/// Opening a tab keeps the invariant.
pub proof fn lemma_new_tab_wf(s: RegistryView, url: Seq<char>)
    requires
        s.wf(),
    ensures
        s.new_tab(url).wf(),
{
    let t = s.new_tab(url);
    assert(t.tabs[s.tabs.len() as int].id == t.active);
}

/// Closing a tab keeps the invariant.
pub proof fn lemma_close_tab_wf(s: RegistryView, id: nat)
    requires
        s.wf(),
    ensures
        s.close_tab(id).wf(),
{
    if s.closes(id) {
        lemma_position(s.tabs, id);
        let at = position(s.tabs, id);
        let t = s.close_tab(id);
        if s.active == id {
            assert(t.tabs[s.replacement_index(at)].id == t.active);
        } else {
            let k = choose|k: int| 0 <= k < s.tabs.len() && s.tabs[k].id == s.active;
            if k < at {
                assert(t.tabs[k].id == t.active);
            } else {
                assert(t.tabs[k - 1].id == t.active);
            }
        }
    }
}

/// Navigating keeps the invariant.
pub proof fn lemma_navigate_wf(s: RegistryView, url: Seq<char>, title: Seq<char>)
    requires
        s.wf(),
    ensures
        s.navigate_active(url, title).wf(),
{
    lemma_position(s.tabs, s.active);
    let at = position(s.tabs, s.active);
    let t = s.navigate_active(url, title);
    assert(t.tabs[at].id == t.active);
}

/// One step in a history of opening and closing tabs.
pub enum RegistryOp {
    /// Open a tab on this address.
    Open { url: Seq<char> },
    /// Close the tab with this id.
    Close { id: nat },
}

impl RegistryView {
    /// The registry after one step.
    pub open spec fn apply(self, op: RegistryOp) -> RegistryView {
        match op {
            RegistryOp::Open { url } => self.new_tab(url),
            RegistryOp::Close { id } => self.close_tab(id),
        }
    }

    /// The registry after the steps of `ops`, taken in order.
    pub open spec fn run(self, ops: Seq<RegistryOp>) -> RegistryView
        decreases ops.len(),
    {
        if ops.len() == 0 {
            self
        } else {
            self.run(ops.drop_last()).apply(ops.last())
        }
    }

    /// How many steps of `ops`, taken in order from this registry, are
    /// closes that remove a tab.
    pub open spec fn closed_in(self, ops: Seq<RegistryOp>) -> nat
        decreases ops.len(),
    {
        if ops.len() == 0 {
            0
        } else {
            let before = self.run(ops.drop_last());
            let this_one: nat = match ops.last() {
                RegistryOp::Close { id } if before.closes(id) => 1,
                _ => 0,
            };
            self.closed_in(ops.drop_last()) + this_one
        }
    }
}

/// How many steps of `ops` open a tab.
pub open spec fn opened_in(ops: Seq<RegistryOp>) -> nat
    decreases ops.len(),
{
    if ops.len() == 0 {
        0
    } else {
        let this_one: nat = match ops.last() {
            RegistryOp::Open { .. } => 1,
            RegistryOp::Close { .. } => 0,
        };
        opened_in(ops.drop_last()) + this_one
    }
}

/// Whatever tabs are opened and closed, in whatever order, the registry
/// stays well formed, so the ids stay distinct and increasing; the number of
/// open tabs is the number at the start, plus the tabs opened, minus the
/// closes that removed a tab; and the id counter has advanced by the number
/// of tabs opened, so no id is issued twice.
pub proof fn law_tab_count(start: RegistryView, ops: Seq<RegistryOp>)
    requires
        start.wf(),
    ensures
        start.run(ops).wf(),
        ids_increasing(start.run(ops).tabs),
        start.run(ops).tabs.len() == start.tabs.len() + opened_in(ops) - start.closed_in(ops),
        start.run(ops).next_id == start.next_id + opened_in(ops),
    decreases ops.len(),
{
    if ops.len() > 0 {
        law_tab_count(start, ops.drop_last());
        let before = start.run(ops.drop_last());
        match ops.last() {
            RegistryOp::Open { url } => {
                lemma_new_tab_wf(before, url);
            },
            RegistryOp::Close { id } => {
                lemma_close_tab_wf(before, id);
                lemma_position(before.tabs, id);
            },
        }
    }
}

/// An id below the counter that no open tab has is never seen again,
/// whatever tabs are opened and closed: ids are not reused, so a command
/// that names a closed tab finds nothing.
pub proof fn law_ids_not_reused(start: RegistryView, id: nat, ops: Seq<RegistryOp>)
    requires
        start.wf(),
        id < start.next_id,
        !start.contains(id),
    ensures
        !start.run(ops).contains(id),
        start.run(ops).switch_target(id).is_none(),
    decreases ops.len(),
{
    if ops.len() > 0 {
        law_ids_not_reused(start, id, ops.drop_last());
        law_tab_count(start, ops.drop_last());
        let before = start.run(ops.drop_last());
        let after = start.run(ops);
        if after.contains(id) {
            let k = choose|k: int| 0 <= k < after.tabs.len() && after.tabs[k].id == id;
            match ops.last() {
                RegistryOp::Open { url } => {
                    if k < before.tabs.len() {
                        assert(before.tabs[k].id == id);
                    }
                },
                RegistryOp::Close { id: closed } => {
                    if before.closes(closed) {
                        lemma_position(before.tabs, closed);
                        let at = position(before.tabs, closed);
                        if k < at {
                            assert(before.tabs[k].id == id);
                        } else {
                            assert(before.tabs[k + 1].id == id);
                        }
                    }
                },
            }
        }
    }
    lemma_position(start.run(ops).tabs, id);
}

/// Closing the only open tab changes nothing and is reported as refused,
/// whatever id is named.
pub proof fn law_last_tab_stays(s: RegistryView, id: nat)
    requires
        s.tabs.len() == 1,
    ensures
        s.close_tab(id) == s,
        s.close_outcome(id) == CloseOutcomeView::Refused,
{
}

/// Switching to an id that no open tab has changes nothing and hands back
/// no address.
pub proof fn law_switch_to_unknown(s: RegistryView, id: nat)
    requires
        !s.contains(id),
    ensures
        s.switch_tab(id) == s,
        s.switch_target(id).is_none(),
{
    lemma_position(s.tabs, id);
}

/// Closing the active tab, where it is not the only one, leaves the other
/// tabs in their order and makes active the tab that now stands where the
/// closed one stood, or the last tab if the closed one was last. The
/// outcome carries that tab's address.
pub proof fn law_close_active(s: RegistryView)
    requires
        s.wf(),
        s.tabs.len() >= 2,
    ensures
        ({
            let at = position(s.tabs, s.active);
            let after = s.close_tab(s.active);
            let slot = if at < after.tabs.len() {
                at
            } else {
                after.tabs.len() - 1
            };
            &&& 0 <= at < s.tabs.len()
            &&& s.tabs[at].id == s.active
            &&& after.tabs == s.tabs.remove(at)
            &&& after.wf()
            &&& after.contains(after.active)
            &&& after.active == after.tabs[slot].id
            &&& after.active != s.active
            &&& s.close_outcome(s.active) == CloseOutcomeView::Closed {
                navigate_to: Some(after.tabs[slot].url),
            }
        }),
{
    lemma_position(s.tabs, s.active);
    lemma_close_tab_wf(s, s.active);
    let at = position(s.tabs, s.active);
    let after = s.close_tab(s.active);
    let slot = s.replacement_index(at);
    if slot < at {
        assert(after.tabs[slot] == s.tabs[slot]);
    } else {
        assert(after.tabs[slot] == s.tabs[slot + 1]);
    }
}

} // verus!
