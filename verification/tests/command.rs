use browser_shell::command::{
    decode_message, dispatch, dispatch_all, effect_of_close, effect_script, events_of,
    pending_navigation, toolbar_for, Effect, Message, UserEvent,
};
use browser_shell::json::JsonItem;
use browser_shell::tabs::{CloseOutcome, TabRegistry};

fn empty_message() -> Message {
    Message {
        navigate: JsonItem::Missing,
        new_tab: JsonItem::Missing,
        switch_tab: JsonItem::Missing,
        close_tab: JsonItem::Missing,
        close_current_tab: JsonItem::Missing,
        page_loaded: JsonItem::Missing,
    }
}

#[test]
fn each_key_decodes_to_its_event() {
    assert_eq!(
        decode_message("{\"navigate\":\"foo.com\"}"),
        vec![UserEvent::Navigate("foo.com".to_string())]
    );
    assert_eq!(decode_message("{\"newTab\":true}"), vec![UserEvent::NewTab]);
    assert_eq!(
        decode_message("{\"switchTab\":3}"),
        vec![UserEvent::SwitchTab(3)]
    );
    assert_eq!(
        decode_message("{\"closeTab\":2}"),
        vec![UserEvent::CloseTab(2)]
    );
    assert_eq!(
        decode_message("{\"closeCurrentTab\":true}"),
        vec![UserEvent::CloseCurrentTab]
    );
    assert_eq!(
        decode_message("{\"pageLoaded\":true}"),
        vec![UserEvent::PageLoaded]
    );
}

#[test]
fn one_message_can_carry_several_events_in_a_fixed_order() {
    assert_eq!(
        decode_message(
            "{\"pageLoaded\":true,\"closeCurrentTab\":true,\"closeTab\":5,\"switchTab\":4,\"newTab\":true,\"navigate\":\"a b\"}"
        ),
        vec![
            UserEvent::Navigate("a b".to_string()),
            UserEvent::NewTab,
            UserEvent::SwitchTab(4),
            UserEvent::CloseTab(5),
            UserEvent::CloseCurrentTab,
            UserEvent::PageLoaded,
        ]
    );
}

#[test]
fn values_of_the_wrong_kind_carry_nothing() {
    assert_eq!(decode_message("{\"navigate\":7}"), Vec::new());
    assert_eq!(decode_message("{\"navigate\":null}"), Vec::new());
    assert_eq!(decode_message("{\"newTab\":false}"), Vec::new());
    assert_eq!(decode_message("{\"newTab\":\"true\"}"), Vec::new());
    assert_eq!(decode_message("{\"newTab\":1}"), Vec::new());
    assert_eq!(decode_message("{\"switchTab\":\"3\"}"), Vec::new());
    assert_eq!(decode_message("{\"switchTab\":-3}"), Vec::new());
    assert_eq!(decode_message("{\"switchTab\":3.5}"), Vec::new());
    assert_eq!(decode_message("{\"closeTab\":true}"), Vec::new());
    assert_eq!(decode_message("{\"closeTab\":[2]}"), Vec::new());
    assert_eq!(decode_message("{\"pageLoaded\":{}}"), Vec::new());
    assert_eq!(decode_message("{\"other\":true}"), Vec::new());
    assert_eq!(decode_message("{}"), Vec::new());
}

#[test]
fn text_that_is_no_object_carries_nothing() {
    assert_eq!(decode_message(""), Vec::new());
    assert_eq!(decode_message("not json"), Vec::new());
    assert_eq!(decode_message("{\"newTab\":true"), Vec::new());
    assert_eq!(decode_message("[{\"newTab\":true}]"), Vec::new());
    assert_eq!(decode_message("\"newTab\""), Vec::new());
    assert_eq!(decode_message("true"), Vec::new());
    assert_eq!(decode_message("3"), Vec::new());
    assert_eq!(decode_message("null"), Vec::new());
}

#[test]
fn decoded_text_is_unescaped() {
    assert_eq!(
        decode_message("{\"navigate\":\"a\\\"b\\u00e9\\n\"}"),
        vec![UserEvent::Navigate("a\"b\u{e9}\n".to_string())]
    );
    assert_eq!(
        decode_message("{\"navigate\":\"\"}"),
        vec![UserEvent::Navigate(String::new())]
    );
}

#[test]
fn events_of_a_message_by_field() {
    assert_eq!(events_of(&empty_message()), Vec::new());
    let mut message = empty_message();
    message.navigate = JsonItem::Text("x.com".to_string());
    message.page_loaded = JsonItem::Flag(true);
    assert_eq!(
        events_of(&message),
        vec![
            UserEvent::Navigate("x.com".to_string()),
            UserEvent::PageLoaded
        ]
    );
    let mut message = empty_message();
    message.new_tab = JsonItem::Flag(false);
    message.close_current_tab = JsonItem::Other;
    message.switch_tab = JsonItem::Text("1".to_string());
    message.close_tab = JsonItem::Flag(true);
    message.navigate = JsonItem::Number(1);
    message.page_loaded = JsonItem::Number(1);
    assert_eq!(events_of(&message), Vec::new());
    let mut message = empty_message();
    message.switch_tab = JsonItem::Number(8);
    message.close_tab = JsonItem::Number(9);
    message.new_tab = JsonItem::Flag(true);
    message.close_current_tab = JsonItem::Flag(true);
    assert_eq!(
        events_of(&message),
        vec![
            UserEvent::NewTab,
            UserEvent::SwitchTab(8),
            UserEvent::CloseTab(9),
            UserEvent::CloseCurrentTab
        ]
    );
}

#[test]
fn end_to_end() {
    let mut registry = TabRegistry::new("https://example.com".to_string());

    let effect = dispatch(&mut registry, &UserEvent::NewTab);
    assert_eq!(effect, Effect::Navigate("https://example.com".to_string()));
    let (tabs, active) = registry.snapshot();
    assert_eq!(tabs.len(), 2);
    assert_eq!(active, 2);
    assert_eq!(tabs[1].id, 2);
    assert_eq!(tabs[1].url, "https://example.com");
    assert_eq!(tabs[1].title, "New Tab");

    let effect = dispatch(&mut registry, &UserEvent::Navigate("foo.com".to_string()));
    assert_eq!(effect, Effect::Navigate("https://foo.com".to_string()));
    let (tabs, active) = registry.snapshot();
    assert_eq!(active, 2);
    assert_eq!(tabs[1].url, "https://foo.com");
    assert_eq!(tabs[1].title, "foo.com");
    assert_eq!(tabs[0].url, "https://example.com");

    let effect = dispatch(&mut registry, &UserEvent::CloseTab(2));
    assert_eq!(effect, Effect::Navigate("https://example.com".to_string()));
    let (tabs, active) = registry.snapshot();
    assert_eq!(tabs.len(), 1);
    assert_eq!(active, 1);
    assert_eq!(tabs[0].id, 1);
}

#[test]
fn page_loaded_only_redraws() {
    let mut registry = TabRegistry::new("https://example.com".to_string());
    let before = registry.snapshot();
    assert_eq!(
        dispatch(&mut registry, &UserEvent::PageLoaded),
        Effect::RefreshToolbar
    );
    assert_eq!(registry.snapshot(), before);
}

#[test]
fn navigate_searches_for_plain_words() {
    let mut registry = TabRegistry::new("https://example.com".to_string());
    assert_eq!(
        dispatch(&mut registry, &UserEvent::Navigate("rust lang".to_string())),
        Effect::Navigate("https://www.google.com/search?q=rust+lang".to_string())
    );
    let (tabs, _) = registry.snapshot();
    assert_eq!(tabs[0].url, "https://www.google.com/search?q=rust+lang");
    assert_eq!(tabs[0].title, "www.google.com");
}

#[test]
fn close_events_by_outcome() {
    let mut registry = TabRegistry::new("https://one.example".to_string());
    assert_eq!(
        dispatch(&mut registry, &UserEvent::CloseTab(1)),
        Effect::Nothing
    );
    assert_eq!(
        dispatch(&mut registry, &UserEvent::CloseCurrentTab),
        Effect::Nothing
    );
    assert_eq!(registry.len(), 1);
    registry.new_tab("https://two.example".to_string());
    registry.new_tab("https://three.example".to_string());
    assert_eq!(
        dispatch(&mut registry, &UserEvent::CloseTab(77)),
        Effect::RefreshToolbar
    );
    assert_eq!(registry.len(), 3);
    assert_eq!(
        dispatch(&mut registry, &UserEvent::CloseTab(1)),
        Effect::RefreshToolbar
    );
    assert_eq!(registry.len(), 2);
    assert_eq!(registry.active_id(), 3);
    assert_eq!(
        dispatch(&mut registry, &UserEvent::CloseCurrentTab),
        Effect::Navigate("https://two.example".to_string())
    );
    assert_eq!(registry.len(), 1);
    assert_eq!(registry.active_id(), 2);
}

#[test]
fn close_current_tab_is_resolved_when_it_is_carried_out() {
    let mut registry = TabRegistry::new("https://one.example".to_string());
    let events = decode_message("{\"newTab\":true,\"closeCurrentTab\":true}");
    assert_eq!(events, vec![UserEvent::NewTab, UserEvent::CloseCurrentTab]);
    assert_eq!(
        dispatch(&mut registry, &events[0]),
        Effect::Navigate("https://example.com".to_string())
    );
    assert_eq!(registry.active_id(), 2);
    assert_eq!(
        dispatch(&mut registry, &events[1]),
        Effect::Navigate("https://one.example".to_string())
    );
    assert_eq!(registry.active_id(), 1);
    assert_eq!(registry.len(), 1);
}

#[test]
fn switch_events() {
    let mut registry = TabRegistry::new("https://one.example".to_string());
    registry.new_tab("https://two.example".to_string());
    assert_eq!(
        dispatch(&mut registry, &UserEvent::SwitchTab(1)),
        Effect::Navigate("https://one.example".to_string())
    );
    assert_eq!(registry.active_id(), 1);
    let before = registry.snapshot();
    assert_eq!(
        dispatch(&mut registry, &UserEvent::SwitchTab(5)),
        Effect::Nothing
    );
    assert_eq!(registry.snapshot(), before);
}

#[test]
fn a_close_that_races_with_a_switch_finds_nothing() {
    let mut registry = TabRegistry::new("https://one.example".to_string());
    registry.new_tab("https://two.example".to_string());
    dispatch(&mut registry, &UserEvent::CloseTab(2));
    assert_eq!(
        dispatch(&mut registry, &UserEvent::SwitchTab(2)),
        Effect::Nothing
    );
    assert_eq!(registry.active_id(), 1);
    registry.new_tab("https://three.example".to_string());
    assert_eq!(registry.active_id(), 3);
    assert_eq!(
        dispatch(&mut registry, &UserEvent::SwitchTab(2)),
        Effect::Nothing
    );
}

#[test]
fn effect_of_each_close_outcome() {
    assert_eq!(effect_of_close(CloseOutcome::Refused), Effect::Nothing);
    assert_eq!(
        effect_of_close(CloseOutcome::NotFound),
        Effect::RefreshToolbar
    );
    assert_eq!(
        effect_of_close(CloseOutcome::Closed { navigate_to: None }),
        Effect::RefreshToolbar
    );
    assert_eq!(
        effect_of_close(CloseOutcome::Closed {
            navigate_to: Some("https://x.com".to_string())
        }),
        Effect::Navigate("https://x.com".to_string())
    );
}

#[test]
fn toolbar_of_a_registry() {
    let mut registry = TabRegistry::new("https://example.com".to_string());
    registry.navigate_active("https://foo.com/`tick`".to_string());
    registry.new_tab("https://example.com".to_string());
    assert_eq!(
        toolbar_for(&registry),
        "if (window.__injectToolbar) { window.__injectToolbar(`<div class=\"tab \" data-id=\"1\"><span class=\"tab-title\">foo.com</span><span class=\"tab-close\" data-id=\"1\">\u{d7}</span></div><div class=\"tab active\" data-id=\"2\"><span class=\"tab-title\">New Tab</span><span class=\"tab-close\" data-id=\"2\">\u{d7}</span></div>`, `https://example.com`); }"
    );
    registry.switch_tab(1);
    assert!(toolbar_for(&registry).ends_with("`, `https://foo.com/\\`tick\\``); }"));
}

#[test]
fn script_of_each_effect() {
    let registry = TabRegistry::new("https://example.com".to_string());
    assert_eq!(effect_script(&registry, &Effect::Nothing), None);
    assert_eq!(
        effect_script(&registry, &Effect::Navigate("https://x.com/'".to_string())),
        Some("window.location.href = 'https://x.com/\\''".to_string())
    );
    assert_eq!(
        effect_script(&registry, &Effect::RefreshToolbar),
        Some(toolbar_for(&registry))
    );
}

#[test]
fn a_page_moves_only_to_another_address() {
    assert_eq!(pending_navigation("https://a.com", "https://a.com"), None);
    assert_eq!(
        pending_navigation("https://a.com", "https://b.com"),
        Some("https://b.com".to_string())
    );
    assert_eq!(pending_navigation("", ""), None);
    assert_eq!(pending_navigation("https://a.com", ""), Some(String::new()));
}

#[test]
fn a_batch_is_carried_out_in_order() {
    let mut registry = TabRegistry::new("https://one.example".to_string());
    let events = vec![
        UserEvent::NewTab,
        UserEvent::Navigate("foo.com".to_string()),
        UserEvent::NewTab,
        UserEvent::CloseTab(3),
    ];
    let target = dispatch_all(&mut registry, &events, "https://one.example");
    assert_eq!(target, Some("https://foo.com".to_string()));
    let (tabs, active) = registry.snapshot();
    assert_eq!(active, 2);
    assert_eq!(tabs.len(), 2);
    assert_eq!(tabs[1].url, "https://foo.com");
    assert_eq!(tabs[1].title, "foo.com");

    let mut stepwise = TabRegistry::new("https://one.example".to_string());
    for event in &events {
        dispatch(&mut stepwise, event);
    }
    assert_eq!(stepwise.snapshot(), registry.snapshot());
}

#[test]
fn the_last_navigation_of_a_batch_decides() {
    let mut registry = TabRegistry::new("https://one.example".to_string());
    let events = vec![
        UserEvent::Navigate("a.com".to_string()),
        UserEvent::Navigate("b.com".to_string()),
        UserEvent::PageLoaded,
        UserEvent::SwitchTab(9),
    ];
    assert_eq!(
        dispatch_all(&mut registry, &events, "https://one.example"),
        Some("https://b.com".to_string())
    );
    assert_eq!(registry.active_url(), "https://b.com");
}

#[test]
fn a_batch_that_ends_where_the_page_is_moves_nothing() {
    let mut registry = TabRegistry::new("https://one.example".to_string());
    let events = vec![
        UserEvent::Navigate("a.com".to_string()),
        UserEvent::Navigate("https://one.example".to_string()),
    ];
    assert_eq!(
        dispatch_all(&mut registry, &events, "https://one.example"),
        None
    );
    assert_eq!(registry.active_url(), "https://one.example");
}

#[test]
fn a_batch_without_navigation_moves_nothing() {
    let mut registry = TabRegistry::new("https://one.example".to_string());
    let before = registry.snapshot();
    assert_eq!(
        dispatch_all(&mut registry, &Vec::new(), "https://elsewhere.example"),
        None
    );
    assert_eq!(registry.snapshot(), before);
    let events = vec![
        UserEvent::PageLoaded,
        UserEvent::CloseTab(1),
        UserEvent::SwitchTab(4),
        UserEvent::CloseCurrentTab,
    ];
    assert_eq!(
        dispatch_all(&mut registry, &events, "https://elsewhere.example"),
        None
    );
    assert_eq!(registry.snapshot(), before);
}
