use sql_shell::cell::{render_row, render_rows, Cell};

#[test]
fn null_is_shown_as_the_word() {
    assert_eq!(Cell::Null.render(), "NULL");
}

#[test]
fn bytes_are_never_shown() {
    assert_eq!(Cell::Binary(vec![]).render(), "BINARY DATA");
    assert_eq!(Cell::Binary(vec![0, 159, 146, 150]).render(), "BINARY DATA");
    assert_eq!(Cell::Binary(b"NULL".to_vec()).render(), "BINARY DATA");
}

#[test]
fn integers_are_shown_in_decimal() {
    assert_eq!(Cell::Integer(1).render(), "1");
    assert_eq!(Cell::Integer(-273).render(), "-273");
    assert_eq!(Cell::Integer(i64::MIN).render(), "-9223372036854775808");
}

#[test]
fn reals_are_shown_as_their_decimal_text() {
    assert_eq!(Cell::Real(1.5f64.to_string()).render(), "1.5");
    assert_eq!(Cell::Real(2.0f64.to_string()).render(), "2");
    assert_eq!(Cell::Real((-0.25f64).to_string()).render(), "-0.25");
}

#[test]
fn text_is_shown_unchanged() {
    assert_eq!(Cell::Text("x".to_string()).render(), "x");
    assert_eq!(Cell::Text(String::new()).render(), "");
    assert_eq!(Cell::Text("NULL".to_string()).render(), "NULL");
    assert_eq!(Cell::Text("  two words\t".to_string()).render(), "  two words\t");
    assert_eq!(Cell::Text("héllo ✓".to_string()).render(), "héllo ✓");
}

#[test]
fn rendering_twice_gives_the_same_text() {
    let cells = vec![
        Cell::Null,
        Cell::Integer(77),
        Cell::Real("0.1".to_string()),
        Cell::Text("t".to_string()),
        Cell::Binary(vec![1, 2, 3]),
    ];
    for cell in &cells {
        assert_eq!(cell.render(), cell.render());
    }
}

#[test]
fn a_row_keeps_its_cells_in_order() {
    let row = vec![
        Cell::Integer(1),
        Cell::Text("x".to_string()),
        Cell::Null,
        Cell::Binary(vec![9]),
        Cell::Real("3.25".to_string()),
    ];
    assert_eq!(render_row(&row), vec!["1", "x", "NULL", "BINARY DATA", "3.25"]);
    assert_eq!(render_row(&Vec::new()), Vec::<String>::new());
}

#[test]
fn rows_keep_their_number_and_their_lengths() {
    let rows = vec![
        vec![Cell::Integer(1), Cell::Text("a".to_string())],
        vec![Cell::Integer(2), Cell::Null],
        vec![],
    ];
    let shown = render_rows(&rows);
    assert_eq!(shown.len(), 3);
    assert_eq!(shown[0], vec!["1", "a"]);
    assert_eq!(shown[1], vec!["2", "NULL"]);
    assert!(shown[2].is_empty());
    for (row, texts) in rows.iter().zip(shown.iter()) {
        assert_eq!(row.len(), texts.len());
    }
}
