use ownership::report::{report_clone, report_length, report_value};

#[test]
fn value_line_of_a_number() {
    assert_eq!(report_value("x", "1"), "El valor de x es 1");
    assert_eq!(report_value("n", "2"), "El valor de n es 2");
}

#[test]
fn value_line_of_a_text() {
    assert_eq!(report_value("s2", "Rust is so cool!"), "El valor de s2 es Rust is so cool!");
}

#[test]
fn value_line_with_empty_parts() {
    assert_eq!(report_value("", ""), "El valor de  es ");
    assert_eq!(report_value("s", ""), "El valor de s es ");
}

#[test]
fn clone_line_shows_both_texts() {
    assert_eq!(
        report_clone("Hey again rustaceans!", "Hey again rustaceans!"),
        "El valor de s1 es Hey again rustaceans! y el valor de s2 es Hey again rustaceans!"
    );
}

#[test]
fn clone_line_keeps_the_order_of_its_texts() {
    assert_eq!(report_clone("a", "b"), "El valor de s1 es a y el valor de s2 es b");
    assert_eq!(report_clone("b", "a"), "El valor de s1 es b y el valor de s2 es a");
}

#[test]
fn length_line_of_rust_is_cool() {
    assert_eq!(
        report_length("Rust is cool", 12),
        "El String Rust is cool tiene una longitud de 12 caracteres"
    );
}

#[test]
fn length_line_at_the_limits() {
    assert_eq!(report_length("", 0), "El String  tiene una longitud de 0 caracteres");
    assert_eq!(
        report_length("x", usize::MAX),
        format!("El String x tiene una longitud de {} caracteres", usize::MAX)
    );
}
