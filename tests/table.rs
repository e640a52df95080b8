use logistic_ode::table::table_rows;

fn strings(v: &[&str]) -> Vec<String> {
    v.iter().map(|s| s.to_string()).collect()
}

fn pair(a: &str, b: &str) -> (String, String) {
    (a.to_string(), b.to_string())
}

#[test]
fn header_then_rows_in_order() {
    let rows = table_rows(&strings(&["0", "10", "20"]), &strings(&["100", "231.9", "450.8"]));
    assert_eq!(
        rows,
        vec![pair("x_out", "y_out"), pair("0", "100"), pair("10", "231.9"), pair("20", "450.8")]
    );
}

#[test]
fn empty_columns_give_the_header_alone() {
    assert_eq!(table_rows(&Vec::new(), &Vec::new()), vec![pair("x_out", "y_out")]);
}

#[test]
fn shorter_column_bounds_the_rows() {
    let rows = table_rows(&strings(&["0", "10", "20"]), &strings(&["1"]));
    assert_eq!(rows, vec![pair("x_out", "y_out"), pair("0", "1")]);
    let rows = table_rows(&strings(&["0"]), &strings(&["1", "2"]));
    assert_eq!(rows.len(), 2);
}

#[test]
fn export_is_deterministic() {
    let t = strings(&["0", "5"]);
    let v = strings(&["3", "4"]);
    assert_eq!(table_rows(&t, &v), table_rows(&t, &v));
}
