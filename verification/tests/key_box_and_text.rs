use keyboard_heatmap::key_box::{
    fan_triangles, key_text_color, normalized_press_times, outline_segments, tooltip_text_color,
    ColorCache, Rgba,
};
use keyboard_heatmap::text::{chars_of, contains_chars, lex_less, str_eq};

fn rgb(r: u8, g: u8, b: u8) -> Rgba {
    Rgba { r, g, b, a: 255 }
}

#[test]
fn normalized_press_times_scales_average_to_32() {
    assert_eq!(normalized_press_times(10, 10), 32);
    assert_eq!(normalized_press_times(10, 5), 64);
    assert_eq!(normalized_press_times(3, 7), 13);
    assert_eq!(normalized_press_times(0, 7), 0);
}

#[test]
fn normalized_press_times_is_monotonic() {
    let mut last = 0;
    for p in 0..200 {
        let n = normalized_press_times(p, 37);
        assert!(n >= last);
        last = n;
    }
}

#[test]
fn color_cache_hits_after_store() {
    let mut c = ColorCache::new();
    assert!(c.needs_update(0, 0));
    c.store(rgb(1, 2, 3), rgb(4, 5, 6), 7, 8);
    assert!(!c.needs_update(7, 8));
    assert!(c.needs_update(7, 9));
    assert!(c.needs_update(6, 8));
    assert_eq!(c.cached(), (rgb(1, 2, 3), rgb(4, 5, 6)));
}

#[test]
fn text_colors_follow_theme() {
    assert_eq!(key_text_color(true), rgb(100, 100, 100));
    assert_eq!(key_text_color(false), rgb(32, 5, 64));
    assert_eq!(tooltip_text_color(true), rgb(220, 220, 220));
    assert_eq!(tooltip_text_color(false), rgb(50, 50, 50));
}

#[test]
fn fan_triangles_close_the_outline() {
    assert_eq!(fan_triangles(4), vec![(0, 1, 4), (1, 2, 4), (2, 3, 4), (3, 0, 4)]);
    assert_eq!(fan_triangles(0), vec![]);
    assert_eq!(fan_triangles(36).len(), 36);
    assert_eq!(fan_triangles(36)[35], (35, 0, 36));
}

#[test]
fn outline_segments_wrap_around() {
    assert_eq!(outline_segments(3), vec![(0, 1), (1, 2), (2, 0)]);
    assert_eq!(outline_segments(1), vec![(0, 0)]);
}

#[test]
fn str_eq_compares_characters() {
    assert!(str_eq("Esc", "Esc"));
    assert!(!str_eq("Esc", "Es"));
    assert!(!str_eq("B1", "B2"));
    assert!(str_eq("", ""));
    assert!(str_eq("←", "←"));
}

#[test]
fn contains_finds_runs_of_characters() {
    let hay = chars_of("helvetica neue");
    assert!(contains_chars(&hay, &chars_of("neue")));
    assert!(contains_chars(&hay, &chars_of("")));
    assert!(contains_chars(&hay, &chars_of("helv")));
    assert!(!contains_chars(&hay, &chars_of("neuen")));
    assert!(!contains_chars(&chars_of("ab"), &chars_of("abc")));
}

#[test]
fn lex_less_orders_by_code_point() {
    assert!(lex_less(&chars_of("Arial"), &chars_of("arial")));
    assert!(lex_less(&chars_of("ab"), &chars_of("abc")));
    assert!(!lex_less(&chars_of("abc"), &chars_of("abc")));
    assert!(!lex_less(&chars_of("b"), &chars_of("abc")));
    assert!(lex_less(&chars_of(""), &chars_of("a")));
}
