use termwave::config::{add_comments, config_dir, config_path};

#[test]
fn config_location() {
    assert_eq!(config_path(Some("/home/ada")), "/home/ada/.config/termwave/config.toml");
    assert_eq!(config_path(Some("/home/ada/")), "/home/ada/.config/termwave/config.toml");
    assert_eq!(config_path(None), "./.config/termwave/config.toml");
    assert_eq!(config_path(Some("")), ".config/termwave/config.toml");
    assert_eq!(config_dir(Some("/root")), "/root/.config/termwave");
}

#[test]
fn comments_above_known_keys() {
    let toml = "mode = \"spectrum\"\ntheme = \"classic\"\nfps = 60\n";
    let expected = "# Visualization mode: spectrum, wave, scope, stereo\nmode = \"spectrum\"\n\
                    # Color theme name\ntheme = \"classic\"\n\
                    # Target frames per second\nfps = 60\n";
    assert_eq!(add_comments(toml), expected);
}

#[test]
fn every_key_gets_its_comment() {
    let keys = [
        "mode =", "theme =", "fps =", "bars =", "low_freq =", "high_freq =", "smoothing =",
        "monstercat =", "noise_floor =", "gradient_by_position =", "bar_width =",
        "bar_spacing =", "sensitivity =",
    ];
    for key in keys {
        let line = format!("{} 1", key);
        let out = add_comments(&line);
        let lines: Vec<&str> = out.lines().collect();
        assert_eq!(lines.len(), 2, "{}", key);
        assert!(lines[0].starts_with("# "));
        assert_eq!(lines[1], line);
    }
    assert_eq!(
        add_comments("bar_spacing = 1"),
        "# Gap between bars in terminal columns (0-4)\nbar_spacing = 1\n"
    );
}

#[test]
fn unknown_lines_pass_through() {
    assert_eq!(add_comments("[section]\nother = 1"), "[section]\nother = 1\n");
    assert_eq!(add_comments(""), "");
    assert_eq!(add_comments("\n\n"), "\n\n");
    // a key must start the trimmed line and include the `=`
    assert_eq!(add_comments("modes = 1\nmode=1\n"), "modes = 1\nmode=1\n");
}

#[test]
fn indented_and_crlf_lines() {
    assert_eq!(
        add_comments("  theme = \"fire\"  \r\nfps = 30\r\n"),
        "# Color theme name\n  theme = \"fire\"  \n# Target frames per second\nfps = 30\n"
    );
    // a bare carriage return at the very end stays in the last line
    assert_eq!(add_comments("x\r"), "x\r\n");
}
