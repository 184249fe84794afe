use logofetch::compose::{
    compose, compose_rows, max_visible, padding, repeat_text, row_content, swatch, RowParts,
};
use logofetch::os::{AsciiImage, Image};
use logofetch::theme::Theme;
use nu_ansi_term::{Color, Style};

const UNSET: &str = "\x1b[0m\x1b[m";

fn plain_parts(title: &str, infos: Vec<(&str, &str)>) -> RowParts {
    RowParts {
        title: title.to_string(),
        title_row: format!("T:{}", title),
        infos: infos.into_iter().map(|(k, v)| (k.to_string(), v.to_string())).collect(),
        secondary: String::new(),
        unset: String::new(),
        swatch: "SWATCH".to_string(),
    }
}

#[test]
fn end_to_end_rows() {
    let img = Image::Ascii(AsciiImage { content: "${0}AB\nCD".to_string() });
    let theme = Theme::new(vec![Style::new().fg(Color::Green)]);
    let lines = img.get_lines(&theme);
    let infos = vec![
        ("OS".to_string(), "Foo".to_string()),
        ("Kernel".to_string(), "1.0".to_string()),
    ];
    let rows = compose(&lines, &theme, &"bob@host".to_string(), infos);
    assert_eq!(rows.len(), 2);
    let title = format!("\x1b[32mbob{u}@\x1b[32mhost{u}", u = UNSET);
    assert_eq!(rows[0], format!("{}   {}", lines[0].0, title));
    assert_eq!(rows[1], format!("{}   --------", lines[1].0));

    let parts = plain_parts("bob@host", vec![("OS", "Foo"), ("Kernel", "1.0")]);
    assert_eq!(row_content(1, &parts), "--------");
    assert_eq!(row_content(2, &parts), "OS: Foo");
    assert_eq!(row_content(3, &parts), "Kernel: 1.0");
    assert_eq!(row_content(4, &parts), "");
    assert_eq!(row_content(5, &parts), "SWATCH");
    assert_eq!(row_content(6, &parts), "");
}

#[test]
fn info_row_in_secondary_style() {
    let mut parts = plain_parts("a@b", vec![("OS", "Foo")]);
    parts.secondary = "<s>".to_string();
    parts.unset = "<u>".to_string();
    assert_eq!(row_content(2, &parts), "<s>OS<u>: Foo");
}

#[test]
fn empty_info_list() {
    let parts = plain_parts("bob@host", vec![]);
    assert_eq!(row_content(0, &parts), "T:bob@host");
    assert_eq!(row_content(1, &parts), "--------");
    assert_eq!(row_content(2, &parts), "");
    assert_eq!(row_content(3, &parts), "SWATCH");
    assert_eq!(row_content(4, &parts), "");
    assert_eq!(row_content(9, &parts), "");
}

#[test]
fn rows_padded_to_common_column() {
    let lines = vec![
        ("a".to_string(), 1),
        ("abcd".to_string(), 4),
        ("".to_string(), 0),
    ];
    assert_eq!(max_visible(&lines), 4);
    let parts = plain_parts("x@y", vec![]);
    let rows = compose_rows(&lines, &parts);
    assert_eq!(rows, vec![
        "a      T:x@y".to_string(),
        "abcd   ---".to_string(),
        "       ".to_string(),
    ]);
}

#[test]
fn padding_values() {
    assert_eq!(padding(10, 4), 9);
    assert_eq!(padding(4, 4), 3);
    assert_eq!(padding(2, 10), 0);
    assert_eq!(padding(0, 0), 3);
}

#[test]
fn max_of_no_lines_is_zero() {
    assert_eq!(max_visible(&vec![]), 0);
    assert!(compose_rows(&vec![], &plain_parts("", vec![])).is_empty());
}

#[test]
fn repeat_counts() {
    assert_eq!(repeat_text("-", 0), "");
    assert_eq!(repeat_text("ab", 3), "ababab");
}

#[test]
fn swatch_blocks() {
    let s = swatch();
    let expected = format!(
        "\x1b[40m   \x1b[41m   \x1b[42m   \x1b[43m   \x1b[44m   \x1b[45m   \x1b[104m   \x1b[47m   {}",
        UNSET
    );
    assert_eq!(s, expected);
}
