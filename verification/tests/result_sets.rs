use sql_shell::cell::Cell;
use sql_shell::result_set::ResultSet;
use sql_shell::table::draw_table;
use tabled::builder::Builder;
use tabled::settings::Style;

fn names(titles: &[&str]) -> Vec<String> {
    titles.iter().map(|t| t.to_string()).collect()
}

#[test]
fn no_rows_is_no_data() {
    let rs = ResultSet::new(names(&["a", "b"]));
    assert_eq!(rs.row_count(), 0);
    assert_eq!(rs.display(), "No Data");
}

#[test]
fn no_columns_and_no_rows_is_no_data() {
    let rs = ResultSet::new(Vec::new());
    assert_eq!(rs.display(), "No Data");
}

#[test]
fn one_row_is_a_sharp_table() {
    let mut rs = ResultSet::new(names(&["a", "b"]));
    rs.offer(Some(vec![Cell::Integer(1), Cell::Text("x".to_string())]));
    assert_eq!(rs.row_count(), 1);
    let expected = "┌───┬───┐\n\
                    │ a │ b │\n\
                    ├───┼───┤\n\
                    │ 1 │ x │\n\
                    └───┴───┘";
    assert_eq!(rs.display(), expected);
}

#[test]
fn columns_are_as_wide_as_their_widest_cell() {
    let mut rs = ResultSet::new(names(&["id", "name"]));
    rs.offer(Some(vec![Cell::Integer(1), Cell::Text("Ada".to_string())]));
    rs.offer(Some(vec![Cell::Integer(1000), Cell::Null]));
    rs.offer(Some(vec![Cell::Integer(-7), Cell::Binary(vec![1, 2])]));
    let expected = "┌──────┬─────────────┐\n\
                    │ id   │ name        │\n\
                    ├──────┼─────────────┤\n\
                    │ 1    │ Ada         │\n\
                    │ 1000 │ NULL        │\n\
                    │ -7   │ BINARY DATA │\n\
                    └──────┴─────────────┘";
    assert_eq!(rs.display(), expected);
}

#[test]
fn a_row_that_could_not_be_read_is_passed_over() {
    let mut rs = ResultSet::new(names(&["n"]));
    rs.offer(None);
    assert_eq!(rs.row_count(), 0);
    assert_eq!(rs.display(), "No Data");
    rs.offer(Some(vec![Cell::Integer(1)]));
    rs.offer(None);
    rs.offer(Some(vec![Cell::Integer(2)]));
    assert_eq!(rs.row_count(), 2);
    assert_eq!(rs.titles, names(&["n"]));
    let expected = "┌───┐\n\
                    │ n │\n\
                    ├───┤\n\
                    │ 1 │\n\
                    │ 2 │\n\
                    └───┘";
    assert_eq!(rs.display(), expected);
}

#[test]
fn the_table_has_a_line_for_the_header_and_one_for_each_row() {
    let mut rs = ResultSet::new(names(&["a", "b", "c"]));
    for n in 0..5 {
        rs.offer(Some(vec![Cell::Integer(n), Cell::Null, Cell::Text("t".to_string())]));
    }
    let text = rs.display();
    let lines: Vec<&str> = text.lines().collect();
    assert_eq!(lines.len(), 3 + 1 + 5);
    for line in [lines[1]].iter().chain(lines[3..8].iter()) {
        assert_eq!(line.matches('│').count(), 3 + 1);
    }
}

#[test]
fn draw_table_is_what_the_builder_draws() {
    let titles = names(&["k", "value"]);
    let rows = vec![names(&["1", "one"]), names(&["2", "two\nlines"]), names(&["3", ""])];
    let mut builder = Builder::default();
    builder.set_header(titles.iter());
    for row in &rows {
        builder.push_record(row.iter());
    }
    let direct = builder.build().with(Style::sharp()).to_string();
    let drawn = draw_table(&titles, &rows);
    assert_eq!(drawn, direct);
    assert!(drawn.contains("value"));
    assert!(drawn.contains("one"));
}

#[test]
fn draw_table_keeps_the_order_of_rows() {
    let titles = names(&["n"]);
    let rows = vec![names(&["first"]), names(&["second"]), names(&["third"])];
    let drawn = draw_table(&titles, &rows);
    let first = drawn.find("first").unwrap();
    let second = drawn.find("second").unwrap();
    let third = drawn.find("third").unwrap();
    assert!(first < second && second < third);
}

#[test]
fn a_table_is_as_wide_as_its_longest_row() {
    let titles = names(&["a"]);
    let rows = vec![names(&["1", "2", "3"]), names(&["4"])];
    let expected = "┌───┬───┬───┐\n\
                    │ a │   │   │\n\
                    ├───┼───┼───┤\n\
                    │ 1 │ 2 │ 3 │\n\
                    │ 4 │   │   │\n\
                    └───┴───┴───┘";
    assert_eq!(draw_table(&titles, &rows), expected);
}

#[test]
fn a_short_row_is_filled_up_to_the_header() {
    let mut rs = ResultSet::new(names(&["a", "b"]));
    rs.offer(Some(vec![Cell::Integer(1)]));
    let expected = "┌───┬───┐\n\
                    │ a │ b │\n\
                    ├───┼───┤\n\
                    │ 1 │   │\n\
                    └───┴───┘";
    assert_eq!(rs.display(), expected);
}
