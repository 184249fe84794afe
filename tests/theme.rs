use logofetch::os::mac_os::MacOS;
use logofetch::os::{AsciiImage, Image, OS};
use logofetch::style::get_style_unset;
use logofetch::theme::{compose_title, Theme};
use nu_ansi_term::{Color, Style};

const UNSET: &str = "\x1b[0m\x1b[m";

#[test]
fn unset_style_resets_first() {
    let s = get_style_unset();
    assert!(s.prefix_with_reset);
    assert_eq!(s.foreground, None);
    assert_eq!(s.prefix().to_string(), UNSET);
}

#[test]
fn theme_lookups() {
    let theme = Theme::new(vec![Style::new().fg(Color::Green), Style::new().fg(Color::Red)]);
    assert_eq!(theme.get_primary(), Some(&Style::new().fg(Color::Green)));
    assert_eq!(theme.get_secondary(), Some(&Style::new().fg(Color::Red)));
    assert_eq!(theme.get_style(2), None);
    let empty = Theme::new(vec![]);
    assert_eq!(empty.get_primary(), None);
    assert_eq!(empty.prefix_or_unset(0), UNSET);
}

#[test]
fn palette_holds_style_codes() {
    let theme = Theme::new(vec![Style::new().fg(Color::Green).bold()]);
    let pal = theme.palette();
    assert_eq!(pal.styles.len(), 1);
    assert_eq!(pal.styles[0].prefix, "\x1b[1;32m");
    assert_eq!(pal.styles[0].suffix, "\x1b[0m");
    assert_eq!(pal.unset.prefix, UNSET);
    assert_eq!(pal.initial.prefix, "");
    assert_eq!(pal.initial.suffix, "");
}

#[test]
fn get_lines_uses_theme_codes() {
    let img = Image::Ascii(AsciiImage { content: "${0}AB\nCD".to_string() });
    let theme = Theme::new(vec![Style::new().fg(Color::Green)]);
    let lines = img.get_lines(&theme);
    assert_eq!(
        lines,
        vec![
            (format!("\x1b[32m\x1b[32mAB{}", UNSET), 2),
            (format!("\x1b[32mCD{}", UNSET), 2),
        ]
    );
}

#[test]
fn missing_theme_entry_uses_unset_codes() {
    let img = Image::Ascii(AsciiImage { content: "${5}X".to_string() });
    let theme = Theme::new(vec![Style::new().fg(Color::Green), Style::new().fg(Color::Red)]);
    let lines = img.get_lines(&theme);
    assert_eq!(lines, vec![(format!("{u}{u}X{u}", u = UNSET), 1)]);
}

#[test]
fn title_in_primary_style() {
    let theme = Theme::new(vec![Style::new().fg(Color::Green)]);
    let t = theme.render_title(&"bob@host".to_string());
    assert_eq!(t, format!("\x1b[32mbob{u}@\x1b[32mhost{u}", u = UNSET));
}

#[test]
fn title_layout() {
    assert_eq!(compose_title("bob@host", "<p>", "<u>"), "<p>bob<u>@<p>host<u>");
    assert_eq!(compose_title("a@b@c", "<p>", "<u>"), "<p>a<u>@<p>b<u>");
    assert_eq!(compose_title("nohost", "<p>", "<u>"), "");
    assert_eq!(compose_title("", "<p>", "<u>"), "");
}

#[test]
fn mac_logo_renders() {
    let theme = MacOS::get_theme();
    assert_eq!(theme.get_primary(), Some(&Style::new().fg(Color::Green).bold()));
    assert_eq!(theme.get_style(5), Some(&Style::new().fg(Color::Blue).bold()));
    let lines = MacOS::get_image().get_lines(&theme);
    assert_eq!(lines.len(), 17);
    assert_eq!(lines[0].1, 23);
    assert!(lines[1].0.starts_with("\x1b[1;32m"));
    assert!(lines.iter().all(|(l, _)| !l.contains("${")));
    assert!(lines.iter().all(|(l, _)| l.ends_with(UNSET)));
}
