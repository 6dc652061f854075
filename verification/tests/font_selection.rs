use keyboard_heatmap::app::{
    background_color, filter_fonts, position_of, theme_button_text, FontFamily, FontSelector,
    NavKey, SelectorAction,
};
use keyboard_heatmap::font_loader::sorted_families;
use keyboard_heatmap::key_box::Rgba;

fn strings(v: &[&str]) -> Vec<String> {
    v.iter().map(|s| s.to_string()).collect()
}

fn selector(selected: &str) -> FontSelector {
    FontSelector::new(strings(&["Arial", "Courier", "Helvetica", "Menlo"]), selected.to_string())
}

#[test]
fn family_names() {
    assert_eq!(FontFamily::Monospace.name(), "Monospace");
    assert_eq!(FontFamily::Proportional.name(), "Proportional");
}

#[test]
fn theme_texts_and_background() {
    assert_eq!(theme_button_text(true), "☀ Light");
    assert_eq!(theme_button_text(false), "🌙 Dark");
    assert_eq!(background_color(true), Rgba { r: 0x3A, g: 0x38, b: 0x37, a: 255 });
    assert_eq!(background_color(false), Rgba { r: 255, g: 255, b: 255, a: 255 });
}

#[test]
fn filter_ignores_case() {
    let fonts = strings(&["Arial", "Arial Black", "Courier", "MARIANNE"]);
    assert_eq!(filter_fonts(&fonts, "ARIA"), strings(&["Arial", "Arial Black", "MARIANNE"]));
    assert_eq!(filter_fonts(&fonts, "black"), strings(&["Arial Black"]));
    assert_eq!(filter_fonts(&fonts, "zzz"), Vec::<String>::new());
}

#[test]
fn empty_search_shows_every_font() {
    let fonts = strings(&["Arial", "Courier"]);
    assert_eq!(filter_fonts(&fonts, ""), fonts);
}

#[test]
fn sorted_families_drops_repeats_and_sorts() {
    let got = sorted_families(strings(&["b", "a", "b", "C", "a", "Zapf"]));
    assert_eq!(got, strings(&["C", "Zapf", "a", "b"]));
    assert_eq!(sorted_families(Vec::new()), Vec::<String>::new());
}

#[test]
fn sorted_families_does_not_depend_on_input_order() {
    let a = sorted_families(strings(&["Menlo", "Arial", "Courier", "Arial"]));
    let b = sorted_families(strings(&["Courier", "Menlo", "Arial"]));
    assert_eq!(a, b);
}

#[test]
fn position_of_finds_first() {
    let fonts = strings(&["A", "B", "A"]);
    assert_eq!(position_of(&fonts, &"A".to_string()), Some(0));
    assert_eq!(position_of(&fonts, &"B".to_string()), Some(1));
    assert_eq!(position_of(&fonts, &"C".to_string()), None);
}

#[test]
fn opening_highlights_font_in_use() {
    let mut s = selector("Helvetica");
    s.toggle();
    assert!(s.font_selector_open);
    assert!(s.font_selector_just_opened);
    assert_eq!(s.font_selector_index, 2);
    assert!(s.take_scroll_request());
    assert!(!s.take_scroll_request());
    s.toggle();
    assert!(!s.font_selector_open);
}

#[test]
fn opening_keeps_index_for_unknown_font() {
    let mut s = selector("Nope");
    s.font_selector_index = 3;
    s.toggle();
    assert_eq!(s.font_selector_index, 3);
}

#[test]
fn button_text_names_font_or_asks() {
    assert_eq!(selector("Menlo").button_text(), "Menlo");
    assert_eq!(selector("").button_text(), "Select Font");
}

#[test]
fn saved_font_or_menlo() {
    let s = FontSelector::with_saved_font(Vec::new(), None);
    assert_eq!(s.selected_font, "Menlo");
    let s = FontSelector::with_saved_font(Vec::new(), Some("Arial".to_string()));
    assert_eq!(s.selected_font, "Arial");
    assert!(!s.font_selector_open);
}

#[test]
fn down_then_up_restores_highlight() {
    let mut s = selector("Arial");
    s.toggle();
    let shown = s.filtered();
    let (moved, action) = s.navigate(NavKey::Down, &shown);
    assert!(moved);
    assert!(matches!(action, SelectorAction::Preview(ref f) if f == "Courier"));
    let (moved, action) = s.navigate(NavKey::Up, &shown);
    assert!(moved);
    assert!(matches!(action, SelectorAction::Preview(ref f) if f == "Arial"));
    assert_eq!(s.font_selector_index, 0);
}

#[test]
fn navigation_stops_at_list_ends() {
    let mut s = selector("Menlo");
    s.toggle();
    assert_eq!(s.font_selector_index, 3);
    let shown = s.filtered();
    let (moved, action) = s.navigate(NavKey::Down, &shown);
    assert!(!moved);
    assert!(matches!(action, SelectorAction::Nothing));
    assert_eq!(s.font_selector_index, 3);
    s.font_selector_index = 0;
    let (moved, _) = s.navigate(NavKey::Up, &shown);
    assert!(!moved);
    assert_eq!(s.font_selector_index, 0);
    let (moved, _) = s.navigate(NavKey::Down, &Vec::new());
    assert!(!moved);
}

#[test]
fn enter_applies_highlighted_search_result() {
    let mut s = selector("Arial");
    s.toggle();
    s.edit_search("vet".to_string());
    assert_eq!(s.font_selector_index, 0);
    let shown = s.filtered();
    assert_eq!(shown, strings(&["Helvetica"]));
    let (moved, action) = s.navigate(NavKey::Enter, &shown);
    assert!(!moved);
    assert!(matches!(action, SelectorAction::Apply(ref f) if f == "Helvetica"));
    assert_eq!(s.selected_font, "Helvetica");
    assert_eq!(s.font_search, "");
    assert!(!s.font_selector_open);
}

#[test]
fn enter_on_empty_result_does_nothing() {
    let mut s = selector("Arial");
    s.toggle();
    s.edit_search("xyz".to_string());
    let shown = s.filtered();
    let (_, action) = s.navigate(NavKey::Enter, &shown);
    assert!(matches!(action, SelectorAction::Nothing));
    assert_eq!(s.selected_font, "Arial");
    assert!(s.font_selector_open);
}

#[test]
fn escape_closes_and_clears() {
    let mut s = selector("Arial");
    s.toggle();
    s.edit_search("cour".to_string());
    let shown = s.filtered();
    let (_, action) = s.navigate(NavKey::Escape, &shown);
    assert!(matches!(action, SelectorAction::Nothing));
    assert!(!s.font_selector_open);
    assert_eq!(s.font_search, "");
    assert_eq!(s.selected_font, "Arial");
}

#[test]
fn click_chooses_and_hover_highlights() {
    let mut s = selector("Arial");
    s.toggle();
    let shown = s.filtered();
    s.hover_item(2, true);
    assert_eq!(s.font_selector_index, 0);
    s.hover_item(2, false);
    assert_eq!(s.font_selector_index, 2);
    let action = s.click_item(1, &shown[1]);
    assert!(matches!(action, SelectorAction::Choose(ref f) if f == "Courier"));
    assert_eq!(s.selected_font, "Courier");
    assert_eq!(s.font_selector_index, 1);
    assert!(!s.font_selector_open);
}

#[test]
fn click_outside_closes() {
    let mut s = selector("Arial");
    s.toggle();
    s.edit_search("a".to_string());
    s.click_outside();
    assert!(!s.font_selector_open);
    assert_eq!(s.font_search, "");
}
