use fugue_theme::{
    default_theme, Color, Highlight, Modifier, Style, Theme, ThemeBuilder, HIGHLIGHT_MAX,
    RGB_START,
};

#[test]
fn convert_to_and_from() {
    let (r, g, b) = (0xFF, 0xFE, 0xFA);
    let highlight = Theme::rgb_highlight(r, g, b);
    assert_eq!(Theme::decode_rgb_highlight(highlight), Some((r, g, b)));
}

/// make sure we can store all the colors at the end
#[test]
fn full_numeric_range() {
    assert_eq!(HIGHLIGHT_MAX - RGB_START, 256_u32.pow(3));
}

#[test]
fn retrieve_color() {
    let theme = default_theme();
    // color in the middle
    let (r, g, b) = (0x14, 0xAA, 0xF7);
    assert_eq!(
        theme.highlight(Theme::rgb_highlight(r, g, b)),
        Style::new().fg(Color::Rgb(r, g, b))
    );
    // pure black
    let (r, g, b) = (0x00, 0x00, 0x00);
    assert_eq!(
        theme.highlight(Theme::rgb_highlight(r, g, b)),
        Style::new().fg(Color::Rgb(r, g, b))
    );
    // pure white
    let (r, g, b) = (0xff, 0xff, 0xff);
    assert_eq!(
        theme.highlight(Theme::rgb_highlight(r, g, b)),
        Style::new().fg(Color::Rgb(r, g, b))
    );
}

#[test]
#[should_panic(expected = "index out of bounds")]
fn out_of_bounds() {
    let theme = default_theme();
    let highlight = Highlight::new(Theme::rgb_highlight(0, 0, 0).get() - 1);
    theme.highlight(highlight);
}

#[test]
fn rgb_round_trip_samples() {
    let samples = [0x00u8, 0x01, 0x7F, 0x80, 0xFE, 0xFF];
    for &r in &samples {
        for &g in &samples {
            for &b in &samples {
                let h = Theme::rgb_highlight(r, g, b);
                assert_eq!(Theme::decode_rgb_highlight(h), Some((r, g, b)));
            }
        }
    }
}

#[test]
fn indexed_region_decodes_to_nothing() {
    let theme = default_theme();
    for idx in 0..theme.scopes().len() {
        let h = Highlight::new(idx as u32);
        assert_eq!(Theme::decode_rgb_highlight(h), None);
    }
    // the last value of the indexed region, right at the boundary
    assert_eq!(Theme::decode_rgb_highlight(Highlight::new(RGB_START)), None);
}

#[test]
fn rgb_region_boundaries() {
    // the region spans exactly 2^24 values, one per triple, no waste:
    // the smallest triple lands on the first value past the boundary and
    // the largest on the greatest value any highlight may hold
    assert_eq!(Theme::rgb_highlight(0, 0, 0).get(), RGB_START + 1);
    assert_eq!(Theme::rgb_highlight(0xFF, 0xFF, 0xFF).get(), HIGHLIGHT_MAX);
    // distinct triples never collide
    let a = Theme::rgb_highlight(1, 2, 3);
    let c = Theme::rgb_highlight(3, 2, 1);
    assert_ne!(a.get(), c.get());
}

#[test]
fn cascading_fallback() {
    let style_a = Style::new().fg(Color::Blue);
    let style_b = Style::new().add_modifier(Modifier::reversed());
    let mut builder = ThemeBuilder::new("test".to_owned());
    assert!(builder.add_style("ui".to_owned(), style_a));
    assert!(builder.add_style("ui.cursor.primary".to_owned(), style_b));
    let theme = builder.build();

    // exact hit
    assert_eq!(theme.get("ui.cursor.primary"), style_b);
    // falls through the missing "ui.cursor" to "ui"
    assert_eq!(theme.get("ui.cursor.secondary"), style_a);
    // nothing matches at any level: the default empty style
    assert_eq!(theme.get("totally.unknown.path"), Style::new());
    // no fallback without asking for it
    assert_eq!(theme.try_get_exact("ui.cursor"), None);
    assert_eq!(theme.try_get("ui.cursor"), Some(style_a));
    // the identifier-returning walk agrees with the style-returning one
    assert_eq!(theme.find_highlight("ui.cursor.secondary"), Some(Highlight::new(0)));
    assert_eq!(theme.find_highlight_exact("ui.cursor.secondary"), None);
    assert_eq!(theme.find_highlight("totally.unknown.path"), None);
}

#[test]
fn duplicate_scope_is_not_added() {
    let mut builder = ThemeBuilder::new("test".to_owned());
    assert!(builder.add_style("ui".to_owned(), Style::new().fg(Color::Blue)));
    assert!(!builder.add_style("ui".to_owned(), Style::new().fg(Color::Red)));
    let theme = builder.build();
    assert_eq!(theme.scopes().len(), 1);
    assert_eq!(theme.get("ui"), Style::new().fg(Color::Blue));
}

#[test]
fn index_name_symmetry() {
    let theme = default_theme();
    let scopes = theme.scopes();
    for i in 0..scopes.len() {
        let h = Highlight::new(i as u32);
        assert_eq!(theme.find_highlight_exact(scopes[i].as_str()), Some(h));
        assert_eq!(theme.scope(h), scopes[i].as_str());
        assert_eq!(
            theme.highlight(h),
            theme.try_get_exact(scopes[i].as_str()).unwrap()
        );
    }
}

#[test]
fn color_mode_flag() {
    let mut builder = ThemeBuilder::new("plain".to_owned());
    assert!(builder.add_style("ui".to_owned(), Style::new().fg(Color::Blue)));
    assert!(builder.add_style("ui.text".to_owned(), Style::new().bg(Color::Gray)));
    let plain = builder.build();
    assert!(plain.is_16_color());

    let mut builder = ThemeBuilder::new("true_color".to_owned());
    assert!(builder.add_style("ui".to_owned(), Style::new().fg(Color::Blue)));
    assert!(builder.add_style(
        "ui.special".to_owned(),
        Style::new().fg(Color::Rgb(0x10, 0x20, 0x30))
    ));
    let with_rgb = builder.build();
    assert!(!with_rgb.is_16_color());
}

#[test]
fn builtin_theme_is_16_color() {
    // the built-in theme uses only named colors
    assert!(default_theme().is_16_color());
}

#[test]
fn builtin_table_shape() {
    let theme = default_theme();
    // six rainbow entries, 35 ui, 15 syntax, 12 markup, 4 diff, 10 diagnostic
    assert_eq!(theme.scopes().len(), 82);
    // one spot check per group
    assert!(theme.try_get_exact("ui.gutter").is_some());
    assert!(theme.try_get_exact("namespace").is_some());
    assert!(theme.try_get_exact("markup.quote").is_some());
    assert!(theme.try_get_exact("diff.minus").is_some());
    assert!(theme.try_get_exact("diagnostic.error").is_some());
}

#[test]
fn rainbow_boundary() {
    let theme = default_theme();
    assert_eq!(theme.rainbow_length(), 6);
    let expected = [
        ("rainbow.0", Color::Red),
        ("rainbow.1", Color::Yellow),
        ("rainbow.2", Color::Green),
        ("rainbow.3", Color::Blue),
        ("rainbow.4", Color::Cyan),
        ("rainbow.5", Color::Magenta),
    ];
    for (i, (name, color)) in expected.iter().enumerate() {
        let h = Highlight::new(i as u32);
        assert_eq!(theme.scope(h), *name);
        assert_eq!(theme.highlight(h), Style::new().fg(*color));
    }
    // the first entry past the boundary is not a rainbow entry
    assert!(!theme.scope(Highlight::new(6)).starts_with("rainbow."));
}

#[test]
fn theme_name_and_empty_scope() {
    let theme = default_theme();
    assert_eq!(theme.name(), "base16_transparent");
    // an empty scope name has no dot to strip and matches nothing
    assert_eq!(theme.try_get(""), None);
    assert_eq!(theme.get(""), Style::new());
}

#[test]
fn empty_theme_defaults() {
    let theme = Theme::default();
    assert_eq!(theme.name(), "");
    assert_eq!(theme.rainbow_length(), 0);
    assert_eq!(theme.scopes().len(), 0);
    assert!(theme.is_16_color());
    assert_eq!(theme.try_get("anything"), None);
    assert_eq!(theme.get("anything"), Style::new());
}

#[test]
fn modifier_bits_compose() {
    let both = Modifier::reversed().with(Modifier::slow_blink());
    assert!(both.contains(Modifier::reversed()));
    assert!(both.contains(Modifier::slow_blink()));
    assert!(!both.contains(Modifier::bold()));
    let styled = Style::new().add_modifier(both);
    assert_eq!(styled.modifiers, both);
}
