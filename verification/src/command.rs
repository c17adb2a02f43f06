//! Commands from the user interface: how a message from the page is decoded
//! into events, and what each event does to the tab registry.
//!
//! [`dispatch`] is the whole state machine. It changes the registry and
//! returns the effect that the caller owes the rendering surface; it does
//! not touch the surface itself.

use crate::address::{normalize_url, normalized, title_for, url_host};
use crate::json::{
    member, member_of, object_members, parse, parsed_members, JsonItem, JsonItemView,
};
use crate::tabs::{
    lemma_close_tab_wf, lemma_navigate_wf, lemma_new_tab_wf, lemma_position, lemma_position_is,
    position, CloseOutcome, CloseOutcomeView, RegistryView, TabRegistry,
};
use crate::text::same_text;
use crate::toolbar::{
    build_tabs_html, inject_toolbar_script, location_script, navigation_script, tabs_html,
    toolbar_rows, toolbar_script,
};
use vstd::prelude::*;

verus! {

/// The address a new tab opens on.
pub const DEFAULT_URL: &'static str = "https://example.com";

/// The address a new tab opens on.
pub open spec fn default_url() -> Seq<char> {
    DEFAULT_URL@
}

/// A command for the dispatcher.
#[derive(Debug, Clone, PartialEq, Eq)]
pub enum UserEvent {
    /// Go to what the user typed.
    Navigate(String),
    /// Open a tab.
    NewTab,
    /// Close the tab with this id.
    CloseTab(usize),
    /// Make the tab with this id active.
    SwitchTab(usize),
    /// The page has loaded: the toolbar has to be put in again.
    PageLoaded,
    /// Close whichever tab is active when the command is carried out.
    CloseCurrentTab,
}

/// What a [`UserEvent`] stands for in contracts.
pub enum UserEventView {
    Navigate(Seq<char>),
    NewTab,
    CloseTab(nat),
    SwitchTab(nat),
    PageLoaded,
    CloseCurrentTab,
}

impl View for UserEvent {
    type V = UserEventView;

    open spec fn view(&self) -> UserEventView {
        match self {
            UserEvent::Navigate(text) => UserEventView::Navigate(text@),
            UserEvent::NewTab => UserEventView::NewTab,
            UserEvent::CloseTab(id) => UserEventView::CloseTab(*id as nat),
            UserEvent::SwitchTab(id) => UserEventView::SwitchTab(*id as nat),
            UserEvent::PageLoaded => UserEventView::PageLoaded,
            UserEvent::CloseCurrentTab => UserEventView::CloseCurrentTab,
        }
    }
}

impl DeepView for UserEvent {
    type V = UserEventView;

    open spec fn deep_view(&self) -> UserEventView {
        self@
    }
}

/// What a message from the page holds under the six keys that carry
/// commands.
#[derive(Debug, Clone, PartialEq, Eq)]
pub struct Message {
    /// Under `navigate`.
    pub navigate: JsonItem,
    /// Under `newTab`.
    pub new_tab: JsonItem,
    /// Under `switchTab`.
    pub switch_tab: JsonItem,
    /// Under `closeTab`.
    pub close_tab: JsonItem,
    /// Under `closeCurrentTab`.
    pub close_current_tab: JsonItem,
    /// Under `pageLoaded`.
    pub page_loaded: JsonItem,
}

/// What a [`Message`] stands for in contracts.
pub struct MessageView {
    pub navigate: JsonItemView,
    pub new_tab: JsonItemView,
    pub switch_tab: JsonItemView,
    pub close_tab: JsonItemView,
    pub close_current_tab: JsonItemView,
    pub page_loaded: JsonItemView,
}

impl View for Message {
    type V = MessageView;

    open spec fn view(&self) -> MessageView {
        MessageView {
            navigate: self.navigate@,
            new_tab: self.new_tab@,
            switch_tab: self.switch_tab@,
            close_tab: self.close_tab@,
            close_current_tab: self.close_current_tab@,
            page_loaded: self.page_loaded@,
        }
    }
}

/// The tab id that a number in a message stands for: the number, cut to
/// the width of an id.
pub open spec fn tab_id(n: u64) -> nat {
    (n as usize) as nat
}

/// The events that a message carries, in the order in which they are sent
/// on: each key is looked at by itself, so one message can carry several.
pub open spec fn message_events(m: MessageView) -> Seq<UserEventView> {
    (match m.navigate {
        JsonItemView::Text(text) => seq![UserEventView::Navigate(text)],
        _ => Seq::empty(),
    }) + (match m.new_tab {
        JsonItemView::Flag(true) => seq![UserEventView::NewTab],
        _ => Seq::empty(),
    }) + (match m.switch_tab {
        JsonItemView::Number(n) => seq![UserEventView::SwitchTab(tab_id(n))],
        _ => Seq::empty(),
    }) + (match m.close_tab {
        JsonItemView::Number(n) => seq![UserEventView::CloseTab(tab_id(n))],
        _ => Seq::empty(),
    }) + (match m.close_current_tab {
        JsonItemView::Flag(true) => seq![UserEventView::CloseCurrentTab],
        _ => Seq::empty(),
    }) + (match m.page_loaded {
        JsonItemView::Flag(true) => seq![UserEventView::PageLoaded],
        _ => Seq::empty(),
    })
}

/// The message that a JSON value with the given members carries.
pub open spec fn message_of(members: Option<Map<Seq<char>, JsonItemView>>) -> MessageView {
    MessageView {
        navigate: member_of(members, "navigate"@),
        new_tab: member_of(members, "newTab"@),
        switch_tab: member_of(members, "switchTab"@),
        close_tab: member_of(members, "closeTab"@),
        close_current_tab: member_of(members, "closeCurrentTab"@),
        page_loaded: member_of(members, "pageLoaded"@),
    }
}

/// The events that the text of a message carries: none if the text is not
/// JSON.
pub open spec fn decoded_events(body: Seq<char>) -> Seq<UserEventView> {
    match parsed_members(body) {
        Some(members) => message_events(message_of(members)),
        None => Seq::empty(),
    }
}

fn push_event(events: &mut Vec<UserEvent>, event: UserEvent)
    ensures
        final(events).deep_view() == old(events).deep_view().push(event@),
{
    events.push(event);
    proof {
        assert(events.deep_view() =~= old(events).deep_view().push(event@));
    }
}

/// The events that a message carries.
pub fn events_of(message: &Message) -> (events: Vec<UserEvent>)
    ensures
        events.deep_view() == message_events(message@),
{
    let mut events: Vec<UserEvent> = Vec::new();
    proof {
        assert(events.deep_view() =~= Seq::<UserEventView>::empty());
    }
    if let JsonItem::Text(text) = &message.navigate {
        push_event(&mut events, UserEvent::Navigate(text.clone()));
    }
    if let JsonItem::Flag(true) = &message.new_tab {
        push_event(&mut events, UserEvent::NewTab);
    }
    if let JsonItem::Number(n) = &message.switch_tab {
        push_event(&mut events, UserEvent::SwitchTab(#[verifier::truncate] (*n as usize)));
    }
    if let JsonItem::Number(n) = &message.close_tab {
        push_event(&mut events, UserEvent::CloseTab(#[verifier::truncate] (*n as usize)));
    }
    if let JsonItem::Flag(true) = &message.close_current_tab {
        push_event(&mut events, UserEvent::CloseCurrentTab);
    }
    if let JsonItem::Flag(true) = &message.page_loaded {
        push_event(&mut events, UserEvent::PageLoaded);
    }
    proof {
        assert(events.deep_view() =~= message_events(message@));
    }
    events
}

/// Reads the six command keys of a JSON value.
fn read_message(value: &serde_json::Value) -> (message: Message)
    ensures
        message@ == message_of(object_members(*value)),
{
    Message {
        navigate: member(value, "navigate"),
        new_tab: member(value, "newTab"),
        switch_tab: member(value, "switchTab"),
        close_tab: member(value, "closeTab"),
        close_current_tab: member(value, "closeCurrentTab"),
        page_loaded: member(value, "pageLoaded"),
    }
}

/// Decodes the text of a message from the page into events. A text that
/// is not JSON, or that holds none of the command keys, carries none.
pub fn decode_message(body: &str) -> (events: Vec<UserEvent>)
    ensures
        events.deep_view() == decoded_events(body@),
{
    match parse(body) {
        Some(value) => {
            let message = read_message(&value);
            events_of(&message)
        },
        None => {
            let events: Vec<UserEvent> = Vec::new();
            proof {
                assert(events.deep_view() =~= Seq::<UserEventView>::empty());
            }
            events
        },
    }
}

/// What the caller owes the rendering surface after an event.
#[derive(Debug, Clone, PartialEq, Eq)]
pub enum Effect {
    /// Nothing.
    Nothing,
    /// Send the page to this address.
    Navigate(String),
    /// Put the toolbar in again, from the registry as it now is.
    RefreshToolbar,
}

/// What an [`Effect`] stands for in contracts.
pub enum EffectView {
    Nothing,
    Navigate(Seq<char>),
    RefreshToolbar,
}

impl View for Effect {
    type V = EffectView;

    open spec fn view(&self) -> EffectView {
        match self {
            Effect::Nothing => EffectView::Nothing,
            Effect::Navigate(url) => EffectView::Navigate(url@),
            Effect::RefreshToolbar => EffectView::RefreshToolbar,
        }
    }
}

/// A fresh id is left for one more tab.
pub open spec fn can_open(s: RegistryView) -> bool {
    s.next_id < usize::MAX
}

/// The effect of a close, by its outcome: a refused close does nothing, a
/// close of the active tab sends the page to the tab that took its place,
/// and any other close only redraws the toolbar.
pub open spec fn close_effect(outcome: CloseOutcomeView) -> EffectView {
    match outcome {
        CloseOutcomeView::Refused => EffectView::Nothing,
        CloseOutcomeView::NotFound => EffectView::RefreshToolbar,
        CloseOutcomeView::Closed { navigate_to: Some(url) } => EffectView::Navigate(url),
        CloseOutcomeView::Closed { navigate_to: None } => EffectView::RefreshToolbar,
    }
}

/// The registry after an event.
pub open spec fn state_after(s: RegistryView, event: UserEventView) -> RegistryView {
    match event {
        UserEventView::PageLoaded => s,
        UserEventView::Navigate(text) => s.navigate_active(
            normalized(text),
            title_for(url_host(normalized(text))),
        ),
        UserEventView::NewTab => if can_open(s) {
            s.new_tab(default_url())
        } else {
            s
        },
        UserEventView::CloseTab(id) => s.close_tab(id),
        UserEventView::SwitchTab(id) => s.switch_tab(id),
        UserEventView::CloseCurrentTab => s.close_tab(s.active),
    }
}

/// The effect of an event on a registry.
pub open spec fn effect_of(s: RegistryView, event: UserEventView) -> EffectView {
    match event {
        UserEventView::PageLoaded => EffectView::RefreshToolbar,
        UserEventView::Navigate(text) => EffectView::Navigate(normalized(text)),
        UserEventView::NewTab => if can_open(s) {
            EffectView::Navigate(default_url())
        } else {
            EffectView::Nothing
        },
        UserEventView::CloseTab(id) => close_effect(s.close_outcome(id)),
        UserEventView::SwitchTab(id) => match s.switch_target(id) {
            Some(url) => EffectView::Navigate(url),
            None => EffectView::Nothing,
        },
        UserEventView::CloseCurrentTab => close_effect(s.close_outcome(s.active)),
    }
}

/// The effect of a close, by its outcome.
pub fn effect_of_close(outcome: CloseOutcome) -> (effect: Effect)
    ensures
        effect@ == close_effect(outcome@),
{
    match outcome {
        CloseOutcome::Refused => Effect::Nothing,
        CloseOutcome::NotFound => Effect::RefreshToolbar,
        CloseOutcome::Closed { navigate_to: Some(url) } => Effect::Navigate(url),
        CloseOutcome::Closed { navigate_to: None } => Effect::RefreshToolbar,
    }
}

/// Carries out one event: changes the registry as the event asks and
/// returns what the rendering surface has to do. A new tab is not opened
/// where the id counter has reached its end; the event then changes nothing.
pub fn dispatch(registry: &mut TabRegistry, event: &UserEvent) -> (effect: Effect)
    requires
        old(registry).wf(),
    ensures
        final(registry).wf(),
        final(registry)@ == state_after(old(registry)@, event@),
        effect@ == effect_of(old(registry)@, event@),
{
    match event {
        UserEvent::PageLoaded => Effect::RefreshToolbar,
        UserEvent::Navigate(text) => {
            let url = normalize_url(text.as_str());
            registry.navigate_active(url.clone());
            Effect::Navigate(url)
        },
        UserEvent::NewTab => {
            if registry.can_open_tab() {
                let _id = registry.new_tab(DEFAULT_URL.to_string());
                Effect::Navigate(DEFAULT_URL.to_string())
            } else {
                Effect::Nothing
            }
        },
        UserEvent::CloseTab(id) => effect_of_close(registry.close_tab(*id)),
        UserEvent::SwitchTab(id) => match registry.switch_tab(*id) {
            Some(url) => Effect::Navigate(url),
            None => Effect::Nothing,
        },
        UserEvent::CloseCurrentTab => {
            let active = registry.active_id();
            effect_of_close(registry.close_tab(active))
        },
    }
}

/// The registry after the events of `events`, carried out in order.
pub open spec fn state_after_all(s: RegistryView, events: Seq<UserEventView>) -> RegistryView
    decreases events.len(),
{
    if events.len() == 0 {
        s
    } else {
        state_after(state_after_all(s, events.drop_last()), events.last())
    }
}

/// Whatever events arrive, in whatever order, the registry stays well
/// formed: at least one tab is open, the ids are distinct and below the
/// counter, and the active id is that of an open tab.
pub proof fn law_events_keep_invariant(start: RegistryView, events: Seq<UserEventView>)
    requires
        start.wf(),
    ensures
        state_after_all(start, events).wf(),
    decreases events.len(),
{
    if events.len() > 0 {
        law_events_keep_invariant(start, events.drop_last());
        let before = state_after_all(start, events.drop_last());
        match events.last() {
            UserEventView::PageLoaded => {},
            UserEventView::Navigate(text) => {
                lemma_navigate_wf(
                    before,
                    normalized(text),
                    title_for(url_host(normalized(text))),
                );
            },
            UserEventView::NewTab => {
                lemma_new_tab_wf(before, default_url());
            },
            UserEventView::CloseTab(id) => {
                lemma_close_tab_wf(before, id);
            },
            UserEventView::SwitchTab(id) => {
                lemma_position(before.tabs, id);
            },
            UserEventView::CloseCurrentTab => {
                lemma_close_tab_wf(before, before.active);
            },
        }
    }
}

/// Whenever an event sends the page somewhere, it is to the address of the
/// tab that is active after the event.
pub proof fn law_page_follows_active_tab(s: RegistryView, event: UserEventView)
    requires
        s.wf(),
    ensures
        effect_of(s, event) matches EffectView::Navigate(url) ==> state_after(s, event).active_url()
            == Some(url),
{
    let after = state_after(s, event);
    lemma_position(s.tabs, s.active);
    match event {
        UserEventView::PageLoaded => {},
        UserEventView::Navigate(text) => {
            let at = position(s.tabs, s.active);
            lemma_position_is(after.tabs, after.active, at);
        },
        UserEventView::NewTab => {
            if can_open(s) {
                lemma_position_is(after.tabs, after.active, s.tabs.len() as int);
            }
        },
        UserEventView::CloseTab(id) => {
            lemma_closed_active_url(s, id);
        },
        UserEventView::SwitchTab(id) => {
            lemma_position(s.tabs, id);
        },
        UserEventView::CloseCurrentTab => {
            lemma_closed_active_url(s, s.active);
        },
    }
}

/// After a close that removed the active tab, the address of the active
/// tab is the one that the outcome carries.
proof fn lemma_closed_active_url(s: RegistryView, id: nat)
    requires
        s.wf(),
    ensures
        s.close_outcome(id) matches CloseOutcomeView::Closed { navigate_to: Some(url) }
            ==> s.close_tab(id).active_url() == Some(url),
{
    if s.closes(id) && s.active == id {
        lemma_position(s.tabs, id);
        lemma_close_tab_wf(s, id);
        let at = position(s.tabs, id);
        let after = s.close_tab(id);
        let slot = s.replacement_index(at);
        assert forall|j: int| 0 <= j < slot implies after.tabs[j].id != after.active by {
            assert(after.tabs[j].id < after.tabs[slot].id);
        }
        lemma_position_is(after.tabs, after.active, slot);
    }
}

/// The script that puts in the toolbar for a registry.
pub open spec fn toolbar_of(s: RegistryView) -> Seq<char> {
    toolbar_script(
        tabs_html(s.tabs, s.active),
        match s.active_url() {
            Some(url) => url,
            None => "about:blank"@,
        },
    )
}

/// The script for an effect, given the registry after the event.
pub open spec fn script_of(s: RegistryView, effect: EffectView) -> Option<Seq<char>> {
    match effect {
        EffectView::Nothing => None,
        EffectView::Navigate(url) => Some(location_script(url)),
        EffectView::RefreshToolbar => Some(toolbar_of(s)),
    }
}

/// The script that puts the toolbar into the page: the tab strip and the
/// address of the active tab, as the registry has them.
pub fn toolbar_for(registry: &TabRegistry) -> (script: String)
    requires
        registry.wf(),
    ensures
        script@ == toolbar_of(registry@),
{
    let (tabs, active_id) = registry.snapshot();
    let rows = toolbar_rows(&tabs);
    let html = build_tabs_html(rows.as_slice(), active_id);
    let url = registry.active_url();
    inject_toolbar_script(html.as_str(), url.as_str())
}

/// The script that the rendering surface has to evaluate for an effect, if
/// any. `registry` is the registry after the event.
pub fn effect_script(registry: &TabRegistry, effect: &Effect) -> (script: Option<String>)
    requires
        registry.wf(),
    ensures
        script.deep_view() == script_of(registry@, effect@),
{
    match effect {
        Effect::Nothing => None,
        Effect::Navigate(url) => Some(navigation_script(url.as_str())),
        Effect::RefreshToolbar => Some(toolbar_for(registry)),
    }
}

/// The address that the page has to be sent to, if any.
pub open spec fn pending(shown: Seq<char>, requested: Seq<char>) -> Option<Seq<char>> {
    if shown == requested {
        None
    } else {
        Some(requested)
    }
}

/// Decides whether a page that shows `shown` has to move: it has to where
/// the address asked for is another one, and then to that address.
pub fn pending_navigation(shown: &str, requested: &str) -> (target: Option<String>)
    ensures
        target.deep_view() == pending(shown@, requested@),
{
    if same_text(shown, requested) {
        None
    } else {
        Some(requested.to_string())
    }
}

/// The address that a page showing `shown` has to move to after the
/// events of `events`, carried out in order from `s`: the last event that
/// sends the page somewhere decides, and the page moves only where that
/// address is another one than it shows. No such event, no move.
pub open spec fn target_after(
    s: RegistryView,
    events: Seq<UserEventView>,
    shown: Seq<char>,
) -> Option<Seq<char>>
    decreases events.len(),
{
    if events.len() == 0 {
        None
    } else {
        match effect_of(state_after_all(s, events.drop_last()), events.last()) {
            EffectView::Navigate(url) => pending(shown, url),
            _ => target_after(s, events.drop_last(), shown),
        }
    }
}

/// Carries out a batch of events in order and returns the address that a
/// page showing `shown` has to move to, if any.
pub fn dispatch_all(registry: &mut TabRegistry, events: &Vec<UserEvent>, shown: &str) -> (target:
    Option<String>)
    requires
        old(registry).wf(),
    ensures
        final(registry).wf(),
        final(registry)@ == state_after_all(old(registry)@, events.deep_view()),
        target.deep_view() == target_after(old(registry)@, events.deep_view(), shown@),
{
    let ghost start = registry@;
    let ghost all = events.deep_view();
    let mut target: Option<String> = None;
    let mut i: usize = 0;
    proof {
        assert(all.take(0) =~= Seq::<UserEventView>::empty());
    }
    while i < events.len()
        invariant
            i <= events.len(),
            all == events.deep_view(),
            registry.wf(),
            registry@ == state_after_all(start, all.take(i as int)),
            target.deep_view() == target_after(start, all.take(i as int), shown@),
        decreases events.len() - i,
    {
        proof {
            assert(all.take(i + 1).drop_last() =~= all.take(i as int));
            assert(all.take(i + 1).last() == events[i as int]@);
        }
        let effect = dispatch(registry, &events[i]);
        match effect {
            Effect::Navigate(url) => {
                target = pending_navigation(shown, url.as_str());
            },
            _ => {},
        }
        i += 1;
    }
    proof {
        assert(all.take(events.len() as int) =~= all);
    }
    target
}

} // verus!
