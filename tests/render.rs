use logofetch::render::{render_line, render_template, Palette, StyleCodes};
use logofetch::token::{index_value, split_lines, token_len_at};

fn codes(prefix: &str, suffix: &str) -> StyleCodes {
    StyleCodes { prefix: prefix.to_string(), suffix: suffix.to_string() }
}

fn palette(styles: Vec<StyleCodes>) -> Palette {
    Palette { styles, unset: codes("<u>", "</u>"), initial: codes("", "") }
}

#[test]
fn style_carries_to_next_line() {
    let pal = palette(vec![codes("RED", "/RED")]);
    let rows = render_template("${0}A\nB\n", &pal);
    assert_eq!(rows.len(), 2);
    assert_eq!(rows[0], ("REDREDA<u>".to_string(), 1));
    assert!(rows[1].0.starts_with("RED"));
    assert_eq!(rows[1], ("REDB<u>".to_string(), 1));
}

#[test]
fn missing_index_falls_back_to_unset() {
    let pal = palette(vec![codes("A", "/A"), codes("B", "/B")]);
    let rows = render_template("${5}X", &pal);
    assert_eq!(rows, vec![("<u><u>X<u>".to_string(), 1)]);
}

#[test]
fn previous_style_is_cancelled_before_the_next() {
    let pal = palette(vec![codes("A", "/A"), codes("B", "/B")]);
    let rows = render_template("${0}x${1}y", &pal);
    assert_eq!(rows, vec![("BAx/ABy<u>".to_string(), 2)]);
}

#[test]
fn visible_length_ignores_placeholders() {
    let pal = palette(vec![codes("A", "/A")]);
    let rows = render_template("${0}ab${1}cd${12}e", &pal);
    assert_eq!(rows[0].1, 5);
    let rows = render_template("abcde", &pal);
    assert_eq!(rows[0].1, 5);
    let rows = render_template("${7}${0}${00}", &pal);
    assert_eq!(rows[0].1, 0);
}

#[test]
fn malformed_tokens_are_text() {
    let pal = palette(vec![codes("A", "/A")]);
    let rows = render_template("${}${x}$0{1}", &pal);
    assert_eq!(rows, vec![("${}${x}$0{1}<u>".to_string(), 12)]);
}

#[test]
fn rendering_twice_gives_the_same_rows() {
    let pal = palette(vec![codes("A", "/A"), codes("B", "/B")]);
    let t = "${1}ab\n\ncd${0}e\n${9}f";
    assert_eq!(render_template(t, &pal), render_template(t, &pal));
}

#[test]
fn empty_template_has_no_rows() {
    let pal = palette(vec![]);
    assert!(render_template("", &pal).is_empty());
}

#[test]
fn single_line_without_newline() {
    let pal = palette(vec![]);
    assert_eq!(render_template("plain", &pal), vec![("plain<u>".to_string(), 5)]);
}

#[test]
fn blank_lines_keep_carried_style() {
    let pal = palette(vec![codes("G", "/G")]);
    let rows = render_template("${0}a\n\nb", &pal);
    assert_eq!(rows[1], ("G<u>".to_string(), 0));
    assert_eq!(rows[2], ("Gb<u>".to_string(), 1));
}

#[test]
fn render_line_returns_carried_style() {
    let pal = palette(vec![codes("A", "/A"), codes("B", "/B")]);
    let (text, len, last) = render_line("x${1}", &pal.initial, &pal);
    assert_eq!(text, "BxB<u>");
    assert_eq!(len, 1);
    assert_eq!(last.prefix, "B");
}

#[test]
fn lines_split_like_std() {
    assert_eq!(split_lines("a\r\nb\n"), vec!["a".to_string(), "b".to_string()]);
    assert_eq!(split_lines("a\n\nb"), vec!["a".to_string(), "".to_string(), "b".to_string()]);
    assert_eq!(split_lines("x\r"), vec!["x\r".to_string()]);
    assert_eq!(split_lines("\n"), vec!["".to_string()]);
    assert!(split_lines("").is_empty());
    let t = "p\r\nq\n\nr\rs\n";
    let std_lines: Vec<String> = t.lines().map(|l| l.to_string()).collect();
    assert_eq!(split_lines(t), std_lines);
}

#[test]
fn token_lengths() {
    let s = "a${12}b${}c${3";
    assert_eq!(token_len_at(s, 14, 0), 0);
    assert_eq!(token_len_at(s, 14, 1), 5);
    assert_eq!(token_len_at(s, 14, 7), 0);
    assert_eq!(token_len_at(s, 14, 11), 0);
}

#[test]
fn index_values_are_capped() {
    assert_eq!(index_value("${42}", 2, 4, 100), 42);
    assert_eq!(index_value("${42}", 2, 4, 6), 6);
    assert_eq!(index_value("${007}", 2, 5, 10), 7);
    let big = "${99999999999999999999999999}";
    assert_eq!(index_value(big, 2, 28, 6), 6);
    assert_eq!(index_value(big, 2, 28, usize::MAX), usize::MAX);
}
