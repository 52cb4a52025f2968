use ownership::transfer::{calculate_length, makes_copy, takes_ownership};
use ownership::walkthrough::walkthrough;

#[test]
fn walkthrough_reports_every_scene_in_order() {
    let lines = walkthrough();
    let expected = vec![
        "Hey crustaceans!",
        "El valor de x es 1",
        "El valor de s2 es Rust is so cool!",
        "El valor de s1 es Hey again rustaceans! y el valor de s2 es Hey again rustaceans!",
        "s es el owner del String [una cadena cualquiera]",
        "num tiene el valor de 2, pero es una copia de la variable envida",
        "El valor de n es 2",
        "El String Rust is cool tiene una longitud de 12 caracteres",
    ];
    assert_eq!(lines, expected);
}

#[test]
fn walkthrough_has_eight_lines() {
    assert_eq!(walkthrough().len(), 8);
}

#[test]
fn walkthrough_is_the_same_on_every_run() {
    assert_eq!(walkthrough(), walkthrough());
}

#[test]
fn walkthrough_lines_come_from_the_scenes() {
    let lines = walkthrough();
    assert_eq!(lines[4], takes_ownership(String::from("una cadena cualquiera")));
    assert_eq!(lines[5], makes_copy(2));
    let (text, len) = calculate_length(String::from("Rust is cool"));
    assert_eq!(lines[7], format!("El String {} tiene una longitud de {} caracteres", text, len));
}
