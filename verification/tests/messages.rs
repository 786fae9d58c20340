use coffee::format::{
    conclude_message, fmt_usize, process_message, results_message, start_message, ResultsText,
};

#[test]
fn start_message_text() {
    assert_eq!(start_message(), "Starting COFFEE optimization...\r\n");
}

#[test]
fn decimal_rendering() {
    assert_eq!(fmt_usize(0), "0");
    assert_eq!(fmt_usize(7), "7");
    assert_eq!(fmt_usize(10), "10");
    assert_eq!(fmt_usize(250), "250");
    assert_eq!(fmt_usize(usize::MAX), format!("{}", usize::MAX));
}

#[test]
fn process_message_text() {
    let lag = format!("{:.12}", 0.25_f64);
    let err = format!("{:.6e}", 1.5e-7_f64);
    let msg = process_message(3, &lag, &err);
    assert_eq!(msg, format!("Iteration 3: f = {}, error = {}\r\n", lag, err));
}

#[test]
fn results_message_joins_with_spaces() {
    let values = vec!["1.00e-3".to_string(), "2.50e-4".to_string()];
    assert_eq!(results_message(&values), "1.00e-3 2.50e-4 ");
    let none: Vec<String> = vec![];
    assert_eq!(results_message(&none), "");
}

#[test]
fn conclude_message_without_results() {
    let msg = conclude_message(4, false, None, None);
    assert_eq!(msg, "Optimization failed after 4 iterations.\r\n\r\n");
}

#[test]
fn conclude_message_with_elapsed_time() {
    let elapsed = format!("{:.2} ms", 12.5_f64);
    let msg = conclude_message(2, true, None, Some(&elapsed));
    assert_eq!(
        msg,
        "Optimization complete after 2 iterations.\r\n\r\n\r\nElapsed time: 12.50 ms\r\n"
    );
}

#[test]
fn conclude_message_with_results() {
    let results = ResultsText {
        num_monomers: 2,
        num_polymers: 3,
        lagrangian: "1.000000e0".to_string(),
        lambdas: vec!["-1.250000e0".to_string(), "2.000000e-1".to_string()],
        concentration_error: "3.000000e-7".to_string(),
    };
    let msg = conclude_message(9, true, Some(&results), None);
    let expected = "Optimization complete after 9 iterations.\r\n\r\n\
        Number of monomers: 2\nNumber of polymers: 3\r\n\r\n\
        Optimal Lagrangian: 1.000000e0\r\n\r\n\
        Optimal Lambdas:\r\n\
        -1.250000e0 2.000000e-1 \r\n\r\n\
        Concentration Constraint Error: 3.000000e-7\r\n";
    assert_eq!(msg, expected);
}
