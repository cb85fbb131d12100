use chart_input::modal_hover::{modal_hover, ModalHover};

fn s(x: &str) -> String {
    x.to_string()
}

#[test]
fn settings_items() {
    assert_eq!(modal_hover("prim_settings:item:stroke_width"), ModalHover::PrimitiveSettingsItem(s("stroke_width")));
    assert_eq!(modal_hover("chart_settings:item:grid"), ModalHover::ChartSettingsItem(s("grid")));
    assert_eq!(modal_hover("chart_settings:tab:style"), ModalHover::ChartSettingsItem(s("style")));
    assert_eq!(modal_hover("chart_settings:footer:ok"), ModalHover::ChartSettingsFooter(s("ok")));
    assert_eq!(modal_hover("ind_settings:tab:inputs"), ModalHover::IndicatorSettingsItem(s("inputs")));
    assert_eq!(modal_hover("ind_settings:footer:cancel"), ModalHover::IndicatorSettingsFooter(s("cancel")));
}

#[test]
fn chart_settings_dropdown_option_names_its_item() {
    assert_eq!(
        modal_hover("chart_settings:item:dropdown_option:font:mono"),
        ModalHover::ChartSettingsItem(s("mono"))
    );
    assert_eq!(
        modal_hover("chart_settings:item:dropdown_option:font:a:b"),
        ModalHover::ChartSettingsItem(s("a:b"))
    );
    // Without a field separator the whole local id is kept.
    assert_eq!(
        modal_hover("chart_settings:item:dropdown_option:font"),
        ModalHover::ChartSettingsItem(s("dropdown_option:font"))
    );
}

#[test]
fn indicator_items_drop_input_and_color_prefixes() {
    assert_eq!(modal_hover("ind_settings:item:input:length"), ModalHover::IndicatorSettingsItem(s("length")));
    assert_eq!(modal_hover("ind_settings:item:color:line"), ModalHover::IndicatorSettingsItem(s("line")));
    assert_eq!(modal_hover("ind_settings:item:visible"), ModalHover::IndicatorSettingsItem(s("visible")));
}

#[test]
fn other_modals() {
    assert_eq!(modal_hover("user_settings:theme"), ModalHover::UserSettingsItem(s("theme")));
    assert_eq!(modal_hover("chart_browser:item:p1"), ModalHover::ChartBrowserPreset(s("p1")));
    assert_eq!(modal_hover("wl_modal:item:BTC"), ModalHover::WatchlistModalItem(s("BTC")));
    assert_eq!(modal_hover("tags_tabs:row:1"), ModalHover::OverlaySettingsItem(s("tags_tabs:row:1")));
    assert_eq!(modal_hover("overlay_settings:x"), ModalHover::OverlaySettingsItem(s("overlay_settings:x")));
    assert_eq!(modal_hover("wl_modal:close"), ModalHover::Nothing);
    assert_eq!(modal_hover("dtb:cursor"), ModalHover::Nothing);
}
