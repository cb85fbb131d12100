use chart_input::preset::{autosave_name, indicator_write_order, preset_identity, saved_source, PresetMeta, SavedSource};

#[test]
fn indicators_written_by_display_order_stably() {
    assert_eq!(indicator_write_order(&vec![3, 1, 2]), vec![1, 2, 0]);
    assert_eq!(indicator_write_order(&vec![5, 0, 5, 0]), vec![1, 3, 0, 2]);
    assert_eq!(indicator_write_order(&vec![]), Vec::<usize>::new());
    assert_eq!(indicator_write_order(&vec![7, 7, 7]), vec![0, 1, 2]);
}

#[test]
fn write_order_is_a_sorted_permutation() {
    let orders = vec![9u64, 2, 2, 8, 0, 9, 1, 2];
    let r = indicator_write_order(&orders);
    let mut seen = r.clone();
    seen.sort();
    assert_eq!(seen, (0..orders.len()).collect::<Vec<_>>());
    for w in r.windows(2) {
        assert!((orders[w[0]], w[0]) < (orders[w[1]], w[1]));
    }
}

#[test]
fn panel_source_without_exchange_follows_focus() {
    assert_eq!(saved_source("BTCUSDT", "", "spot"), SavedSource::HyperFocus);
    assert_eq!(
        saved_source("BTCUSDT", "binance", "futures"),
        SavedSource::Fixed {
            symbol: "BTCUSDT".to_string(),
            exchange: "binance".to_string(),
            account_type: "futures".to_string()
        }
    );
}

#[test]
fn saving_over_a_preset_keeps_its_identity() {
    let e = PresetMeta { id: "p1".to_string(), name: "Morning".to_string(), created_at: 100 };
    assert_eq!(preset_identity(Some(&e), "p1", "Ignored", 999), e);
    assert_eq!(
        preset_identity(None, "p2", "Evening", 999),
        PresetMeta { id: "p2".to_string(), name: "Evening".to_string(), created_at: 999 }
    );
}

#[test]
fn autosave_guard_and_default_name() {
    assert_eq!(autosave_name(false, "p1", Some("Morning")), None);
    assert_eq!(autosave_name(true, "", Some("Morning")), None);
    assert_eq!(autosave_name(true, "p1", Some("Morning")), Some("Morning".to_string()));
    assert_eq!(autosave_name(true, "__default__", None), Some("Default".to_string()));
    assert_eq!(autosave_name(true, "__default__", Some("Mine")), Some("Mine".to_string()));
    assert_eq!(autosave_name(true, "p9", None), None);
}
