//! Construction of the progress and summary messages.
//!
//! Every message is assembled here with an exact statement of its text.  The
//! numeric fields that need floating-point rendering (objective values,
//! errors, elapsed time) are handed in already rendered; iteration counts
//! and sizes are rendered by the verified decimal printer below.

use vstd::prelude::*;

verus! {

/// The decimal digit character for `d` (expected below ten).
pub open spec fn digit_char(d: nat) -> char
    recommends
        d < 10,
{
    if d == 0 {
        '0'
    } else if d == 1 {
        '1'
    } else if d == 2 {
        '2'
    } else if d == 3 {
        '3'
    } else if d == 4 {
        '4'
    } else if d == 5 {
        '5'
    } else if d == 6 {
        '6'
    } else if d == 7 {
        '7'
    } else if d == 8 {
        '8'
    } else {
        '9'
    }
}

/// The decimal rendering of `n`, most significant digit first, with no sign
/// and no leading zero except for zero itself.
pub open spec fn decimal_digits(n: nat) -> Seq<char>
    decreases n,
{
    if n < 10 {
        seq![digit_char(n)]
    } else {
        decimal_digits(n / 10).push(digit_char(n % 10))
    }
}

/// The single-character string for a digit below ten.
fn digit_str(d: usize) -> (r: &'static str)
    requires
        d < 10,
    ensures
        r@ == seq![digit_char(d as nat)],
{
    proof {
        reveal_strlit("0");
        reveal_strlit("1");
        reveal_strlit("2");
        reveal_strlit("3");
        reveal_strlit("4");
        reveal_strlit("5");
        reveal_strlit("6");
        reveal_strlit("7");
        reveal_strlit("8");
        reveal_strlit("9");
    }
    let r = if d == 0 {
        "0"
    } else if d == 1 {
        "1"
    } else if d == 2 {
        "2"
    } else if d == 3 {
        "3"
    } else if d == 4 {
        "4"
    } else if d == 5 {
        "5"
    } else if d == 6 {
        "6"
    } else if d == 7 {
        "7"
    } else if d == 8 {
        "8"
    } else {
        "9"
    };
    proof {
        assert(r@ =~= seq![digit_char(d as nat)]);
    }
    r
}

/// Renders `n` in decimal.
pub fn fmt_usize(n: usize) -> (s: String)
    ensures
        s@ == decimal_digits(n as nat),
    decreases n,
{
    if n < 10 {
        String::from_str(digit_str(n))
    } else {
        let mut s = fmt_usize(n / 10);
        s.append(digit_str(n % 10));
        s
    }
}

/// The fixed line that opens every optimization run.
pub fn start_message() -> (r: String)
    ensures
        r@ == "Starting COFFEE optimization...\r\n"@,
{
    String::from_str("Starting COFFEE optimization...\r\n")
}

/// The text of one per-iteration progress line; `lagrangian` and `error`
/// are the two numeric fields already rendered.
pub open spec fn process_text(it: nat, lagrangian: Seq<char>, error: Seq<char>) -> Seq<char> {
    "Iteration "@ + decimal_digits(it) + ": f = "@ + lagrangian + ", error = "@ + error + "\r\n"@
}

/// Builds the per-iteration progress line from the iteration number and the
/// rendered objective value and constraint error.
pub fn process_message(it: usize, lagrangian: &str, error: &str) -> (r: String)
    ensures
        r@ == process_text(it as nat, lagrangian@, error@),
{
    let mut s = String::from_str("Iteration ");
    let digits = fmt_usize(it);
    s.append(digits.as_str());
    s.append(": f = ");
    s.append(lagrangian);
    s.append(", error = ");
    s.append(error);
    s.append("\r\n");
    proof {
        assert(s@ =~= process_text(it as nat, lagrangian@, error@));
    }
    s
}

/// The parts of a result snapshot that the concluding summary prints, with
/// every floating-point field already rendered.
pub struct ResultsText {
    /// Number of monomer species (the length of the dual vector).
    pub num_monomers: usize,
    /// Number of polymer species (the length of the concentration vector).
    pub num_polymers: usize,
    /// The rendered optimal Lagrangian value.
    pub lagrangian: String,
    /// The rendered dual variables, one string per monomer.
    pub lambdas: Vec<String>,
    /// The rendered mass-conservation error.
    pub concentration_error: String,
}

/// `parts` joined in order, each followed by a single space.
pub open spec fn joined_with_space(parts: Seq<Seq<char>>) -> Seq<char>
    decreases parts.len(),
{
    if parts.len() == 0 {
        Seq::empty()
    } else {
        joined_with_space(parts.drop_last()) + parts.last() + " "@
    }
}

/// Appends each of `values`, followed by a single space, to `out`.
fn append_joined(out: &mut String, values: &Vec<String>)
    ensures
        final (out)@ == old(out)@ + joined_with_space(values.deep_view()),
{
    let n = values.len();
    for i in 0..n
        invariant
            n == values@.len(),
            out@ == old(out)@ + joined_with_space(values.deep_view().take(i as int)),
    {
        out.append(values[i].as_str());
        out.append(" ");
        proof {
            let dv = values.deep_view();
            assert(dv.take(i + 1).drop_last() =~= dv.take(i as int));
            assert(dv.take(i + 1).last() == dv[i as int]);
            assert(out@ =~= old(out)@ + joined_with_space(dv.take(i + 1)));
        }
    }
    proof {
        assert(values.deep_view().take(values@.len() as int) =~= values.deep_view());
    }
}

/// The text of the result line: every optimal polymer concentration, each
/// already rendered, joined with single spaces.
pub fn results_message(values: &Vec<String>) -> (r: String)
    ensures
        r@ == joined_with_space(values.deep_view()),
{
    let mut s = String::new();
    append_joined(&mut s, values);
    proof {
        assert(s@ =~= joined_with_space(values.deep_view()));
    }
    s
}

/// The text of the concluding summary: the outcome line, then, when a result
/// snapshot is shown, its sizes, objective value, dual variables and
/// constraint error, and finally the elapsed time when it is to be shown.
pub open spec fn conclude_text(
    it: nat,
    success: bool,
    results: Option<&ResultsText>,
    elapsed: Option<&str>,
) -> Seq<char> {
    let head = "Optimization "@ + (if success {
        "complete"@
    } else {
        "failed"@
    }) + " after "@ + decimal_digits(it) + " iterations.\r\n\r\n"@;
    let body = match results {
        Some(res) => head + "Number of monomers: "@ + decimal_digits(res.num_monomers as nat)
            + "\nNumber of polymers: "@ + decimal_digits(res.num_polymers as nat) + "\r\n\r\n"@
            + "Optimal Lagrangian: "@ + res.lagrangian@ + "\r\n\r\n"@ + "Optimal Lambdas:\r\n"@
            + joined_with_space(res.lambdas.deep_view()) + "\r\n\r\n"@
            + "Concentration Constraint Error: "@ + res.concentration_error@ + "\r\n"@,
        None => head,
    };
    match elapsed {
        Some(e) => body + "\r\nElapsed time: "@ + e@ + "\r\n"@,
        None => body,
    }
}

/// Builds the concluding summary for iteration `it`.  `results` carries the
/// rendered result snapshot when the run ends with one; `elapsed` carries
/// the rendered elapsed time (value and unit) when the caller wants it
/// shown.
pub fn conclude_message(
    it: usize,
    success: bool,
    results: Option<&ResultsText>,
    elapsed: Option<&str>,
) -> (r: String)
    ensures
        r@ == conclude_text(it as nat, success, results, elapsed),
{
    let mut s = String::from_str("Optimization ");
    if success {
        s.append("complete");
    } else {
        s.append("failed");
    }
    s.append(" after ");
    let digits = fmt_usize(it);
    s.append(digits.as_str());
    s.append(" iterations.\r\n\r\n");
    if let Some(res) = results {
        s.append("Number of monomers: ");
        let monomer_digits = fmt_usize(res.num_monomers);
        s.append(monomer_digits.as_str());
        s.append("\nNumber of polymers: ");
        let polymer_digits = fmt_usize(res.num_polymers);
        s.append(polymer_digits.as_str());
        s.append("\r\n\r\n");
        s.append("Optimal Lagrangian: ");
        s.append(res.lagrangian.as_str());
        s.append("\r\n\r\n");
        s.append("Optimal Lambdas:\r\n");
        append_joined(&mut s, &res.lambdas);
        s.append("\r\n\r\n");
        s.append("Concentration Constraint Error: ");
        s.append(res.concentration_error.as_str());
        s.append("\r\n");
    }
    if let Some(e) = elapsed {
        s.append("\r\nElapsed time: ");
        s.append(e);
        s.append("\r\n");
    }
    proof {
        assert(s@ =~= conclude_text(it as nat, success, results, elapsed));
    }
    s
}

} // verus!
