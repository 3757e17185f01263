use road_lists::typst::escape_typst;
use road_lists::waybill::{format_tasks_typst, TaskRow, EMPTY_TASK_ENTRY};

fn row(prefix: &str) -> TaskRow {
    TaskRow {
        customer: format!("{}c", prefix),
        loading_point: format!("{}l", prefix),
        unloading_point: format!("{}u", prefix),
        cargo: format!("{}g", prefix),
        trips: format!("{}t", prefix),
        distance: format!("{}d", prefix),
        tons: format!("{}n", prefix),
        arrival_time: format!("{}a", prefix),
    }
}

fn entry(prefix: &str) -> String {
    format!(
        "(customer: \"{p}c\", loading_point: \"{p}l\", unloading_point: \"{p}u\", cargo: \"{p}g\", trips: \"{p}t\", distance: \"{p}d\", tons: \"{p}n\", arrival_time: \"{p}a\")",
        p = prefix
    )
}

#[test]
fn escape_doubles_backslashes_and_escapes_quotes() {
    assert_eq!(escape_typst(r#"a\b"c"#), r#"a\\b\"c"#);
    assert_eq!(escape_typst(r#"\""#), r#"\\\""#);
}

#[test]
fn escape_keeps_other_text() {
    assert_eq!(escape_typst(""), "");
    assert_eq!(escape_typst("ООО «Ромашка», 12/3"), "ООО «Ромашка», 12/3");
}

#[test]
fn escape_matches_two_replacements() {
    for s in ["", "\\", "\"", "a\\\"b", "\\\\\"\"x", "путь\\к\"файлу"] {
        assert_eq!(escape_typst(s), s.replace('\\', "\\\\").replace('"', "\\\""));
    }
}

fn unquote(t: &str) -> Option<String> {
    let mut out = String::new();
    let mut it = t.chars();
    while let Some(c) = it.next() {
        match c {
            '"' => return None,
            '\\' => match it.next() {
                Some(n @ ('\\' | '"')) => out.push(n),
                _ => return None,
            },
            c => out.push(c),
        }
    }
    Some(out)
}

#[test]
fn escape_round_trips_through_a_literal() {
    for s in ["", "plain", "a\"b", "c\\d", "\"\\\"\\", "конец\\"] {
        assert_eq!(unquote(&escape_typst(s)).as_deref(), Some(s));
    }
}

#[test]
fn escape_is_injective_on_samples() {
    assert_ne!(escape_typst("\\\""), escape_typst("\"\\"));
    assert_ne!(escape_typst("a\\"), escape_typst("a\\\\"));
}

#[test]
fn tasks_without_rows_are_three_empty_rows() {
    let expected = format!("({e}, {e}, {e})", e = EMPTY_TASK_ENTRY);
    assert_eq!(format_tasks_typst(&[]), expected);
}

#[test]
fn tasks_with_one_row_are_padded() {
    let expected = format!("({}, {e}, {e})", entry("x"), e = EMPTY_TASK_ENTRY);
    assert_eq!(format_tasks_typst(&[row("x")]), expected);
}

#[test]
fn tasks_beyond_three_are_dropped() {
    let rows = vec![row("a"), row("b"), row("c"), row("d")];
    let expected = format!("({}, {}, {})", entry("a"), entry("b"), entry("c"));
    assert_eq!(format_tasks_typst(&rows), expected);
}

#[test]
fn task_fields_are_escaped() {
    let mut r = row("q");
    r.customer = "ООО \"Нива\"".to_string();
    r.cargo = "a\\b".to_string();
    let out = format_tasks_typst(&[r]);
    assert!(out.starts_with("((customer: \"ООО \\\"Нива\\\"\", loading_point: \"ql\", unloading_point: \"qu\", cargo: \"a\\\\b\","));
}

#[test]
fn empty_task_entry_text() {
    assert_eq!(
        EMPTY_TASK_ENTRY,
        r#"(customer: "", loading_point: "", unloading_point: "", cargo: "", trips: "", distance: "", tons: "", arrival_time: "")"#
    );
}

#[test]
fn padding_row_equals_an_empty_row() {
    let empty = TaskRow {
        customer: String::new(),
        loading_point: String::new(),
        unloading_point: String::new(),
        cargo: String::new(),
        trips: String::new(),
        distance: String::new(),
        tons: String::new(),
        arrival_time: String::new(),
    };
    assert_eq!(format_tasks_typst(&[empty]), format_tasks_typst(&[]));
}
