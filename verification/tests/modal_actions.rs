use chart_input::actions::{
    chart_background_menu, context_command, double_click_target, indicator_set_action, inline_action,
    tags_tabs_scroll, next_line_style, opacity_slider, scroll_surface, search_modal_action,
    watchlist_modal_action, BackgroundItem, ContextCommand, ContextTarget, DoubleClickTarget, IndicatorSetAction, InlineAction,
    TagsSubTab, TagsTabsScroll, TagsTabsSection, LineStyle, OpacitySlider,
    ScrollSurface, SearchModalAction, WatchlistModalAction, WatchlistTab,
};
use chart_input::names::{next_numbered_name, search_item_parts, split_symbol_key, star_toggle_parts, SymbolKey};

fn s(x: &str) -> String {
    x.to_string()
}

#[test]
fn symbol_key_splits_from_the_right() {
    assert_eq!(split_symbol_key("BTCUSDT"), SymbolKey::Bare(s("BTCUSDT")));
    assert_eq!(split_symbol_key("BTCUSDT:binance"), SymbolKey::Pair(s("BTCUSDT"), s("binance")));
    assert_eq!(
        split_symbol_key("BTCUSDT:binance:F"),
        SymbolKey::Triple(s("BTCUSDT"), s("binance"), s("F"))
    );
    // A symbol holding a colon stays whole.
    assert_eq!(
        split_symbol_key("tETH2X:USD:bitfinex:S"),
        SymbolKey::Triple(s("tETH2X:USD"), s("bitfinex"), s("S"))
    );
    assert_eq!(split_symbol_key("::"), SymbolKey::Triple(s(""), s(""), s("")));
    assert_eq!(split_symbol_key(""), SymbolKey::Bare(s("")));
}

#[test]
fn star_key_defaults() {
    assert_eq!(star_toggle_parts("ETHUSDT"), (s("ETHUSDT"), None, s("S")));
    // With one colon the tail is the account type and the exchange is the active one.
    assert_eq!(star_toggle_parts("ETHUSDT:F"), (s("ETHUSDT"), None, s("F")));
    assert_eq!(star_toggle_parts("ETHUSDT:bybit:F"), (s("ETHUSDT"), Some(s("bybit")), s("F")));
}

#[test]
fn search_item_key_defaults() {
    assert_eq!(search_item_parts("ETHUSDT"), (s("ETHUSDT"), s(""), s("S")));
    // With one colon the tail is the exchange and the account type is spot.
    assert_eq!(search_item_parts("ETHUSDT:bybit"), (s("ETHUSDT"), s("bybit"), s("S")));
    assert_eq!(search_item_parts("ETHUSDT:bybit:F"), (s("ETHUSDT"), s("bybit"), s("F")));
}

#[test]
fn next_numbered_name_uses_largest_number() {
    let names = vec![s("Watchlist 1"), s("Favourites"), s("Watchlist 7"), s("Watchlist 3")];
    assert_eq!(next_numbered_name("Watchlist ", &names), "Watchlist 8");
    assert_eq!(next_numbered_name("Watchlist ", &vec![]), "Watchlist 1");
    let odd = vec![s("Watchlist x"), s("Watchlist "), s("Watchlist +4"), s("Watchlist 99999999999")];
    assert_eq!(next_numbered_name("Watchlist ", &odd), "Watchlist 5");
    let sets = vec![s("My Indicator Set 2"), s("My Indicator Set 10")];
    assert_eq!(next_numbered_name("My Indicator Set ", &sets), "My Indicator Set 11");
    let leading = vec![s("Watchlist 007")];
    assert_eq!(next_numbered_name("Watchlist ", &leading), "Watchlist 8");
}

#[test]
fn watchlist_modal_actions() {
    assert_eq!(watchlist_modal_action("close"), WatchlistModalAction::Close);
    for a in ["modal_bg", "header_drag", "list_scroll"] {
        assert_eq!(watchlist_modal_action(a), WatchlistModalAction::Absorb);
    }
    assert_eq!(watchlist_modal_action("search_input"), WatchlistModalAction::SearchInput);
    assert_eq!(watchlist_modal_action("tab:groups"), WatchlistModalAction::SwitchTab(WatchlistTab::Groups));
    assert_eq!(watchlist_modal_action("tab:overview"), WatchlistModalAction::SwitchTab(WatchlistTab::Overview));
    assert_eq!(watchlist_modal_action("tab:settings"), WatchlistModalAction::SwitchTab(WatchlistTab::Settings));
    assert_eq!(watchlist_modal_action("tab:other"), WatchlistModalAction::Ignored);
    assert_eq!(watchlist_modal_action("item:BTC:binance:S"), WatchlistModalAction::OpenSymbol(s("BTC:binance:S")));
    assert_eq!(watchlist_modal_action("delete:BTC"), WatchlistModalAction::RemoveSymbol(s("BTC")));
    assert_eq!(watchlist_modal_action("group:42"), WatchlistModalAction::SelectGroup(42));
    assert_eq!(watchlist_modal_action("group:x"), WatchlistModalAction::Ignored);
    assert_eq!(watchlist_modal_action("group_delete:7"), WatchlistModalAction::DeleteGroup(7));
    assert_eq!(watchlist_modal_action("group_add"), WatchlistModalAction::AddGroup);
    assert_eq!(watchlist_modal_action("group_rename:3"), WatchlistModalAction::RenameGroup(3));
    assert_eq!(watchlist_modal_action("group_rename:-3"), WatchlistModalAction::Ignored);
    assert_eq!(watchlist_modal_action("group_add:1"), WatchlistModalAction::Ignored);
    assert_eq!(watchlist_modal_action(""), WatchlistModalAction::Ignored);
}

#[test]
fn search_modal_actions() {
    assert_eq!(search_modal_action("close"), SearchModalAction::Close);
    assert_eq!(search_modal_action("modal_bg"), SearchModalAction::Absorb);
    assert_eq!(search_modal_action("search_input"), SearchModalAction::SearchInput);
    assert_eq!(search_modal_action("star:ETH:bybit:F"), SearchModalAction::ToggleStar(s("ETH:bybit:F")));
    assert_eq!(search_modal_action("item:rsi"), SearchModalAction::SelectItem(s("rsi")));
    assert_eq!(search_modal_action("category:3"), SearchModalAction::Category(3));
    assert_eq!(search_modal_action("category:"), SearchModalAction::Ignored);
    assert_eq!(search_modal_action("scrollbar_track"), SearchModalAction::Ignored);
    assert_eq!(search_modal_action("header_drag"), SearchModalAction::Ignored);
}

#[test]
fn line_style_cycles_through_five() {
    let mut st = LineStyle::Solid;
    let order = [LineStyle::Dashed, LineStyle::Dotted, LineStyle::LargeDashed, LineStyle::SparseDotted, LineStyle::Solid];
    for expected in order {
        st = next_line_style(st);
        assert_eq!(st, expected);
    }
}

#[test]
fn inline_actions_need_a_selection() {
    assert_eq!(inline_action("inline:delete", false), InlineAction::Ignored);
    assert_eq!(inline_action("inline:delete", true), InlineAction::Delete);
    assert_eq!(inline_action("inline:settings", true), InlineAction::OpenSettings);
    assert_eq!(inline_action("inline:color", true), InlineAction::PickStrokeColor);
    assert_eq!(inline_action("inline:text_color", true), InlineAction::PickTextColor);
    assert_eq!(inline_action("inline:lock", true), InlineAction::ToggleLock);
    assert_eq!(inline_action("inline:style", true), InlineAction::CycleStyle);
    assert_eq!(inline_action("inline:width", true), InlineAction::IncreaseWidth);
    assert_eq!(inline_action("inline:alert", true), InlineAction::OpenAlert);
    assert_eq!(inline_action("inline:style_menu", true), InlineAction::ToggleStyleMenu);
    assert_eq!(inline_action("inline:width_menu", true), InlineAction::ToggleWidthMenu);
    assert_eq!(inline_action("inline_dropdown:__bg__", true), InlineAction::CloseDropdowns);
    assert_eq!(inline_action("inline:name", true), InlineAction::Ignored);
    assert_eq!(inline_action("inline:more", true), InlineAction::Ignored);
}

#[test]
fn inline_style_and_width_options() {
    assert_eq!(
        inline_action("inline:style_option:large_dashed", true),
        InlineAction::SetStyle(Some(LineStyle::LargeDashed))
    );
    assert_eq!(inline_action("inline:style_option:wavy", true), InlineAction::SetStyle(None));
    assert_eq!(inline_action("inline:width_option:2.5", true), InlineAction::SetWidth(s("2.5")));
}

#[test]
fn context_commands() {
    let p = ContextTarget::Primitive(4);
    assert_eq!(context_command(p, "settings"), ContextCommand::OpenPrimitiveSettings(4));
    assert_eq!(context_command(p, "delete"), ContextCommand::DeletePrimitive(4));
    assert_eq!(context_command(p, "clone"), ContextCommand::ClonePrimitive(4));
    assert_eq!(context_command(p, "toggle_lock"), ContextCommand::TogglePrimitiveLock(4));
    assert_eq!(context_command(p, "toggle_visibility"), ContextCommand::TogglePrimitiveVisibility(4));
    assert_eq!(context_command(p, "reset_zoom"), ContextCommand::Nothing);
    let bg = ContextTarget::ChartBackground;
    assert_eq!(context_command(bg, "chart_settings"), ContextCommand::ToggleChartSettings);
    assert_eq!(context_command(bg, "reset_zoom"), ContextCommand::ResetZoom);
    assert_eq!(context_command(bg, "screenshot"), ContextCommand::Screenshot);
    assert_eq!(context_command(bg, "symbol_search"), ContextCommand::OpenSymbolSearch);
    assert_eq!(context_command(bg, "reset_cache"), ContextCommand::ResetCache);
    assert_eq!(context_command(bg, "reset_storage"), ContextCommand::ResetStorage);
    assert_eq!(context_command(bg, "delete"), ContextCommand::Nothing);
    assert_eq!(context_command(ContextTarget::ColorTag(9), "desync"), ContextCommand::Desync(9));
    assert_eq!(context_command(ContextTarget::Indicator(1), "settings"), ContextCommand::Nothing);
    assert_eq!(context_command(ContextTarget::Other, "desync"), ContextCommand::Nothing);
}

#[test]
fn symbol_key_parts_rejoin() {
    for key in ["BTC", "BTC:binance", "BTC:binance:S", "a:b:c:d", ":x", "x:", "::", ""] {
        let joined = match split_symbol_key(key) {
            SymbolKey::Bare(a) => {
                assert!(!a.contains(':'));
                a
            }
            SymbolKey::Pair(a, b) => {
                assert!(!a.contains(':') && !b.contains(':'));
                format!("{}:{}", a, b)
            }
            SymbolKey::Triple(a, b, c) => {
                assert!(!b.contains(':') && !c.contains(':'));
                format!("{}:{}:{}", a, b, c)
            }
        };
        assert_eq!(joined, key);
    }
}

#[test]
fn next_numbered_name_is_new() {
    let names = vec![s("Watchlist 1"), s("Watchlist 2"), s("Watchlist 02"), s("Watchlist 4")];
    let next = next_numbered_name("Watchlist ", &names);
    assert_eq!(next, "Watchlist 5");
    assert!(!names.contains(&next));
}

#[test]
fn opacity_slider_ids() {
    assert_eq!(opacity_slider("color_picker_primitive:opacity_slider"), Some(OpacitySlider::Primitive));
    assert_eq!(opacity_slider("color_picker_indicator:opacity_slider"), Some(OpacitySlider::Indicator));
    assert_eq!(opacity_slider("color_picker_chart:opacity_slider"), Some(OpacitySlider::Chart));
    assert_eq!(opacity_slider("color_picker_compare:opacity_slider"), Some(OpacitySlider::Compare));
    assert_eq!(opacity_slider("color_picker_panel:opacity_slider"), Some(OpacitySlider::Panel));
    assert_eq!(opacity_slider("color_picker_alert:opacity_slider"), Some(OpacitySlider::Other));
    assert_eq!(opacity_slider("color_picker_:opacity_slider"), Some(OpacitySlider::Other));
    assert_eq!(opacity_slider("color_picker_chart:hue_slider"), None);
    assert_eq!(opacity_slider("chart:opacity_slider"), None);
    assert_eq!(opacity_slider("color_picker_opacity_slider"), None);
}

#[test]
fn scroll_surface_ids() {
    let cases = [
        ("chart_settings:scroll_viewport", ScrollSurface::ChartSettings),
        ("ind_settings:scroll_viewport", ScrollSurface::IndicatorSettings),
        ("alert_settings:list_viewport", ScrollSurface::AlertList),
        ("user_settings:profile_list_viewport", ScrollSurface::ProfileList),
        ("watchlist:list_viewport", ScrollSurface::WatchlistList),
        ("chart_browser:list_viewport", ScrollSurface::ChartBrowserList),
        ("tags_tabs:scroll_viewport", ScrollSurface::TagsTabs),
        ("user_settings:scroll_viewport", ScrollSurface::UserSettings),
    ];
    for (id, surface) in cases {
        assert_eq!(scroll_surface(id), Some(surface), "id {}", id);
    }
    assert_eq!(scroll_surface("search_modal:scroll_viewport"), None);
    assert_eq!(scroll_surface(""), None);
}

#[test]
fn double_click_targets() {
    assert_eq!(double_click_target("watchlist:column_header", 4), DoubleClickTarget::WatchlistColumnHeader);
    assert_eq!(double_click_target("agent:leaf:12:focus_content", 4), DoubleClickTarget::AgentLeaf(Some(12)));
    assert_eq!(double_click_target("agent:leaf:x:focus_content", 4), DoubleClickTarget::AgentLeaf(None));
    assert_eq!(double_click_target("agent:leaf:12:scrollbar_handle", 4), DoubleClickTarget::AgentLeaf(None));
    assert_eq!(double_click_target("slot:2:leaf:99:focus_content", 4), DoubleClickTarget::SlotLeaf(Some((2, 99))));
    assert_eq!(double_click_target("slot:5:leaf:99:focus_content", 4), DoubleClickTarget::SlotLeaf(None));
    assert_eq!(double_click_target("slot:2:leaf:99:dom:body", 4), DoubleClickTarget::Chart);
    assert_eq!(double_click_target("chart:canvas", 4), DoubleClickTarget::Chart);
}

#[test]
fn background_menu_layout_and_actions() {
    let menu = chart_background_menu();
    assert_eq!(
        menu,
        vec![
            Some(BackgroundItem::OpenSettings),
            None,
            Some(BackgroundItem::ResetZoom),
            None,
            Some(BackgroundItem::Screenshot),
            None,
            Some(BackgroundItem::SymbolSearch),
            None,
            Some(BackgroundItem::ResetCache),
            Some(BackgroundItem::ResetStorage),
        ]
    );
    let ids: Vec<&str> = menu.iter().flatten().map(|i| i.action_id()).collect();
    assert_eq!(ids, vec!["chart_settings", "reset_zoom", "screenshot", "symbol_search", "reset_cache", "reset_storage"]);
    let icons: Vec<&str> = menu.iter().flatten().map(|i| i.icon()).collect();
    assert_eq!(icons, vec!["settings", "zoom_reset", "camera", "search", "delete", "delete"]);
    for item in menu.iter().flatten() {
        assert_ne!(context_command(ContextTarget::ChartBackground, item.action_id()), ContextCommand::Nothing);
    }
}

#[test]
fn indicator_set_actions() {
    assert_eq!(indicator_set_action("sets_tab"), IndicatorSetAction::ToggleSets);
    assert_eq!(indicator_set_action("set_create"), IndicatorSetAction::CreateSet);
    assert_eq!(indicator_set_action("set_delete:abc"), IndicatorSetAction::DeleteSet(s("abc")));
    assert_eq!(indicator_set_action("set:abc"), IndicatorSetAction::DeploySet(s("abc")));
    assert_eq!(indicator_set_action("set:"), IndicatorSetAction::DeploySet(s("")));
    assert_eq!(indicator_set_action("sets"), IndicatorSetAction::Ignored);
}

#[test]
fn tags_tabs_scroll_by_section() {
    assert_eq!(tags_tabs_scroll(TagsTabsSection::Tabs, TagsSubTab::Details), TagsTabsScroll::Tabs);
    assert_eq!(tags_tabs_scroll(TagsTabsSection::GroupMap, TagsSubTab::Groups), TagsTabsScroll::Tabs);
    assert_eq!(tags_tabs_scroll(TagsTabsSection::Tags, TagsSubTab::Groups), TagsTabsScroll::TagsGroups);
    assert_eq!(tags_tabs_scroll(TagsTabsSection::Tags, TagsSubTab::Details), TagsTabsScroll::TagsDetails);
}
