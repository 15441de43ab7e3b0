use termwave::layout::{
    bar_cell, bar_origin, bar_span, lower_cell, settings_rect, slider_text, stereo_rows,
    visible_theme,
};
use termwave::theme::{by_name, theme_index, themes, ThemeColor, NUM_THEMES};

#[test]
fn builtin_themes() {
    let ts = themes();
    assert_eq!(ts.len(), NUM_THEMES);
    let names: Vec<&str> = ts.iter().map(|t| t.name).collect();
    assert_eq!(
        names,
        vec!["classic", "fire", "ocean", "purple", "matrix", "synthwave", "mono"]
    );
    for t in &ts {
        assert_eq!(t.gradient.len(), 5);
    }
    assert_eq!(ts[0].gradient[0], ThemeColor::Blue);
    assert_eq!(ts[1].wave_color, ThemeColor::Rgb(255, 100, 0));
    assert_eq!(ts[6].scope_color, ThemeColor::White);
    assert_eq!(ts[5].gradient[0], ThemeColor::Rgb(75, 0, 130));
}

#[test]
fn theme_lookup() {
    assert_eq!(by_name("ocean").name, "ocean");
    assert_eq!(by_name("matrix").scope_color, ThemeColor::Rgb(0, 255, 0));
    assert_eq!(by_name("nope").name, "classic");
    assert_eq!(by_name("").name, "classic");
    let ts = themes();
    for (i, t) in ts.iter().enumerate() {
        assert_eq!(theme_index(&ts, t.name), i);
        assert_eq!(by_name(t.name).name, t.name);
    }
    assert_eq!(theme_index(&ts, "synthwave"), 5);
    assert_eq!(by_name("synthwave").name, "synthwave");
    assert_eq!(theme_index(&ts, "tokyo-night-moon"), 0);
    assert_eq!(theme_index(&Vec::new(), "fire"), 0);
}

#[test]
fn gradient_stops() {
    let t = by_name("fire");
    assert_eq!(t.color_at(0), ThemeColor::Rgb(128, 0, 0));
    assert_eq!(t.color_at(4), ThemeColor::Rgb(255, 255, 100));
    assert_eq!(t.color_at(99), ThemeColor::Rgb(255, 255, 100));
    assert_eq!(t.border_color(), ThemeColor::Rgb(255, 100, 0));
    assert_eq!(by_name("classic").border_color(), ThemeColor::Green);
}

#[test]
fn upward_bar_glyphs() {
    // 19 eighths: two full cells and a 3/8 block on the third row
    assert_eq!(bar_cell(19, 0), '█');
    assert_eq!(bar_cell(19, 1), '█');
    assert_eq!(bar_cell(19, 2), '▃');
    assert_eq!(bar_cell(19, 3), ' ');
    assert_eq!(bar_cell(16, 2), ' ');
    assert_eq!(bar_cell(0, 0), ' ');
    assert_eq!(bar_cell(7, 0), '▇');
    assert_eq!(bar_cell(1, 0), '▁');
}

#[test]
fn downward_bar_glyphs() {
    assert_eq!(lower_cell(5, 0), Some('█'));
    assert_eq!(lower_cell(5, 1), Some('█'));
    assert_eq!(lower_cell(5, 2), Some('▀'));
    assert_eq!(lower_cell(5, 3), None);
    assert_eq!(lower_cell(4, 2), None);
    assert_eq!(lower_cell(0, 0), None);
}

#[test]
fn bars_centered_and_spaced() {
    // 10 bars of 2 with gaps of 1 take 29 of 40 columns: 5 free on the left
    assert_eq!(bar_origin(1, 40, 10, 2, 1), 6);
    assert_eq!(bar_origin(1, 10, 10, 2, 1), 1);
    assert_eq!(bar_origin(3, 8, 0, 2, 1), 7);
    assert_eq!(bar_span(6, 0, 2, 1, 1, 40), (6, 8));
    assert_eq!(bar_span(6, 1, 2, 1, 1, 40), (9, 11));
    assert_eq!(bar_span(6, 9, 2, 1, 1, 40), (33, 35));
    // clipped at the right edge
    assert_eq!(bar_span(6, 11, 2, 1, 1, 40), (39, 41));
    assert_eq!(bar_span(6, 12, 2, 1, 1, 40), (42, 41));
    for i in 0..9 {
        assert!(bar_span(6, i, 2, 1, 1, 40).1 <= bar_span(6, i + 1, 2, 1, 1, 40).0);
    }
}

#[test]
fn overlay_placement() {
    assert_eq!(settings_rect(100, 40), (10, 10, 80, 20));
    assert_eq!(settings_rect(45, 20), (2, 5, 40, 10));
    assert_eq!(settings_rect(30, 9), (0, 2, 30, 4));
}

#[test]
fn stereo_split() {
    assert_eq!(stereo_rows(1, 21), (10, 11, 10));
    assert_eq!(stereo_rows(1, 20), (10, 11, 9));
    assert_eq!(stereo_rows(0, 1), (0, 0, 0));
}

#[test]
fn shown_theme_index() {
    assert_eq!(visible_theme(2, 6), 2);
    assert_eq!(visible_theme(9, 6), 5);
    assert_eq!(visible_theme(0, 1), 0);
}

#[test]
fn sliders() {
    assert_eq!(slider_text(3, 5), "[███░░]");
    assert_eq!(slider_text(0, 2), "[░░]");
    assert_eq!(slider_text(2, 2), "[██]");
    assert_eq!(slider_text(0, 0), "[]");
}
