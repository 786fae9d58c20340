use coffee::optimize::validate_dimensions;

#[test]
fn accepts_consistent_dimensions() {
    assert!(validate_dimensions(2, 3, 2, 3).is_ok());
    assert!(validate_dimensions(1, 1, 1, 1).is_ok());
    assert!(validate_dimensions(3, 7, 3, 7).is_ok());
}

#[test]
fn rejects_empty_monomers() {
    let e = validate_dimensions(0, 3, 2, 3).unwrap_err();
    assert_eq!(e.0, "Monomers array is empty.");
}

#[test]
fn rejects_empty_polymers() {
    let e = validate_dimensions(2, 0, 2, 0).unwrap_err();
    assert_eq!(e.0, "Polymers array is empty.");
}

#[test]
fn rejects_fewer_polymers_than_monomers() {
    let e = validate_dimensions(2, 1, 2, 1).unwrap_err();
    assert_eq!(e.0, "Number of polymers is less than number of monomers.");
}

#[test]
fn rejects_column_count_mismatch() {
    let e = validate_dimensions(2, 4, 3, 4).unwrap_err();
    assert_eq!(e.0, "Monomers and polymer compositions inconsistent.");
}

#[test]
fn rejects_energy_length_mismatch() {
    let e = validate_dimensions(2, 3, 2, 4).unwrap_err();
    assert_eq!(e.0, "Polymers and polymer quantities have different sizes.");
}

/// Three wrong-size constructions that must all be rejected: a 4x3 polymer
/// matrix against 2 monomers, a 3x2 matrix against 4 energy entries, and a
/// single polymer against 2 monomers.
#[test]
fn wrong_size_scenarios() {
    assert!(validate_dimensions(2, 4, 3, 4).is_err());
    assert!(validate_dimensions(2, 3, 2, 4).is_err());
    assert!(validate_dimensions(2, 1, 2, 1).is_err());
}

#[test]
fn error_message_accessor_matches_field() {
    let e = validate_dimensions(0, 0, 0, 0).unwrap_err();
    assert_eq!(e.message(), e.0.as_str());
}
