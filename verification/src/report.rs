//! Rendering of the final report.
//!
//! The reporter consumes the accumulator by value and produces one fixed
//! multi-line text: the reference-operation totals and their breakdown, the
//! fraction of instructions that are reference operations, the annotation
//! totals, and four percentage lines for the per-function and per-module
//! classifications.
//!
//! Each ratio is rendered as `x/y (p.pp%)`, where `p.pp` is `x / y * 100`
//! rounded half-up to two decimal places, computed exactly in integer
//! arithmetic.  An empty denominator (an empty corpus has no instructions,
//! functions or modules) renders as `x/y (0.00%)`.

use vstd::prelude::*;
use vstd::string::StringExecFns;

use crate::counts::Counts;
use crate::counts::CountsView;
use crate::model::corpus_delta;
use crate::units::CompiledUnit;

verus! {

/// The decimal digit character for one digit value.
pub open spec fn spec_digit_char(d: nat) -> char {
    if d == 0 {
        '0'
    } else if d == 1 {
        '1'
    } else if d == 2 {
        '2'
    } else if d == 3 {
        '3'
    } else if d == 4 {
        '4'
    } else if d == 5 {
        '5'
    } else if d == 6 {
        '6'
    } else if d == 7 {
        '7'
    } else if d == 8 {
        '8'
    } else {
        '9'
    }
}

/// The decimal rendering of a number, most significant digit first, with no
/// leading zeroes (a single `0` for zero).
pub open spec fn spec_dec(n: nat) -> Seq<char>
    decreases n,
{
    if n < 10 {
        seq![spec_digit_char(n)]
    } else {
        spec_dec(n / 10).push(spec_digit_char(n % 10))
    }
}

/// The ratio `x / y` in hundredths of a percent, rounded half-up; zero when
/// the denominator is zero.
pub open spec fn spec_hundredths(x: nat, y: nat) -> nat {
    if y == 0 {
        0
    } else {
        (20000 * x + y) / (2 * y)
    }
}

/// A two-digit, zero-padded rendering of a fraction part below one hundred.
pub open spec fn spec_frac2(f: nat) -> Seq<char> {
    if f < 10 {
        seq!['0', spec_digit_char(f)]
    } else {
        spec_dec(f)
    }
}

/// The text `x/y (p.pp%)` for the ratio of `x` over `y`.
pub open spec fn spec_percent(x: nat, y: nat) -> Seq<char> {
    spec_dec(x) + "/"@ + spec_dec(y) + " ("@ + spec_dec(spec_hundredths(x, y) / 100) + "."@
        + spec_frac2(spec_hundredths(x, y) % 100) + "%)"@
}

/// One report line holding a label and a count.
pub open spec fn spec_count_line(label: Seq<char>, n: nat) -> Seq<char> {
    label + spec_dec(n) + "\n"@
}

/// One report line holding a label and a ratio.
pub open spec fn spec_percent_line(label: Seq<char>, x: nat, y: nat) -> Seq<char> {
    label + spec_percent(x, y) + "\n"@
}

/// The whole report text for one accumulator value.
pub open spec fn spec_report(c: CountsView) -> Seq<char> {
    spec_count_line(
        "Total reference operations (not including move/copy/pop): "@,
        c.ref_ops_total(),
    ) + spec_count_line("  Total borrow local: "@, c.imm_borrow_loc + c.mut_borrow_loc)
        + spec_count_line("    Imm borrow local: "@, c.imm_borrow_loc) + spec_count_line(
        "    Mut borrow local: "@,
        c.mut_borrow_loc,
    ) + spec_count_line("  Total borrow field: "@, c.imm_borrow_field + c.mut_borrow_field)
        + spec_count_line("    Imm borrow field: "@, c.imm_borrow_field) + spec_count_line(
        "    Mut borrow field: "@,
        c.mut_borrow_field,
    ) + spec_count_line("  Total borrow global: "@, c.imm_borrow_global + c.mut_borrow_global)
        + spec_count_line("    Imm borrow global: "@, c.imm_borrow_global) + spec_count_line(
        "    Mut borrow global: "@,
        c.mut_borrow_global,
    ) + spec_count_line("  Freeze: "@, c.freeze) + spec_percent_line(
        "Fraction of instructions that are reference instructions: "@,
        c.ref_ops_total(),
        c.total_instructions,
    ) + "\n"@ + spec_count_line(
        "Total reference related annotations: "@,
        c.reference_parameters + c.reference_return_values + c.acquires_annotations,
    ) + spec_count_line(
        "  Total reference function type annotations: "@,
        c.reference_parameters + c.reference_return_values,
    ) + spec_count_line("    Reference parameters: "@, c.reference_parameters) + spec_count_line(
        "    Reference return values: "@,
        c.reference_return_values,
    ) + spec_count_line("  Acquire annotations: "@, c.acquires_annotations) + "\n"@
        + spec_percent_line(
        "Functions with reference operations: "@,
        c.functions_with_reference_operations,
        c.total_functions,
    ) + spec_percent_line(
        "Functions with reference signatures: "@,
        c.functions_with_reference_signatures,
        c.total_functions,
    ) + spec_percent_line(
        "Functions with acquires: "@,
        c.functions_with_acquires,
        c.total_functions,
    ) + spec_percent_line(
        "Modules with acquires: "@,
        c.modules_with_acquires,
        c.total_modules,
    )
}

/// The sums the reporter computes in machine arithmetic stay within bounds:
/// the reference-operation total and the annotation total each fit.  Any
/// accumulator whose counters were gathered by the walkers under their
/// own bounds obeys this whenever these two sums fit in a `usize`.
pub open spec fn report_fits(c: CountsView) -> bool {
    &&& c.ref_ops_total() <= usize::MAX
    &&& c.reference_parameters + c.reference_return_values + c.acquires_annotations <= usize::MAX
}

/// One decimal digit as text.
fn digit_str(d: u128) -> (r: &'static str)
    requires
        d < 10,
    ensures
        r@ == seq![spec_digit_char(d as nat)],
{
    proof {
        reveal_strlit("0");
        reveal_strlit("1");
        reveal_strlit("2");
        reveal_strlit("3");
        reveal_strlit("4");
        reveal_strlit("5");
        reveal_strlit("6");
        reveal_strlit("7");
        reveal_strlit("8");
        reveal_strlit("9");
    }
    if d == 0 {
        "0"
    } else if d == 1 {
        "1"
    } else if d == 2 {
        "2"
    } else if d == 3 {
        "3"
    } else if d == 4 {
        "4"
    } else if d == 5 {
        "5"
    } else if d == 6 {
        "6"
    } else if d == 7 {
        "7"
    } else if d == 8 {
        "8"
    } else {
        "9"
    }
}

/// The decimal rendering of a number.
fn decimal_digits(n: u128) -> (r: String)
    ensures
        r@ == spec_dec(n as nat),
    decreases n,
{
    if n < 10 {
        let r = digit_str(n).to_owned();
        assert(r@ =~= spec_dec(n as nat));
        r
    } else {
        let mut r = decimal_digits(n / 10);
        r.append(digit_str(n % 10));
        assert(r@ =~= spec_dec(n as nat));
        r
    }
}

/// The text `x/y (p.pp%)` for the ratio of `x` over `y`, with the percentage
/// rounded half-up to two decimal places and an empty denominator rendered
/// as `0.00%`.
fn percent_text(x: usize, y: usize) -> (r: String)
    ensures
        r@ == spec_percent(x as nat, y as nat),
{
    let hundredths: u128 = if y == 0 {
        0
    } else {
        (20000u128 * (x as u128) + (y as u128)) / (2 * (y as u128))
    };
    assert(hundredths == spec_hundredths(x as nat, y as nat));
    let mut r = decimal_digits(x as u128);
    r.append("/");
    let denominator = decimal_digits(y as u128);
    r.append(denominator.as_str());
    r.append(" (");
    let integer_part = decimal_digits(hundredths / 100);
    r.append(integer_part.as_str());
    r.append(".");
    let frac = hundredths % 100;
    if frac < 10 {
        proof {
            reveal_strlit("0");
        }
        r.append("0");
        r.append(digit_str(frac));
        assert(seq!['0'] + seq![spec_digit_char(frac as nat)] =~= spec_frac2(frac as nat));
    } else {
        let frac_part = decimal_digits(frac);
        r.append(frac_part.as_str());
    }
    r.append("%)");
    assert(r@ =~= spec_percent(x as nat, y as nat));
    r
}

/// Appends one labelled count line to the report text.
fn push_count_line(out: &mut String, label: &str, n: usize)
    ensures
        final(out)@ == old(out)@ + spec_count_line(label@, n as nat),
{
    out.append(label);
    let digits = decimal_digits(n as u128);
    out.append(digits.as_str());
    out.append("\n");
    assert(out@ =~= old(out)@ + spec_count_line(label@, n as nat));
}

/// Appends one labelled ratio line to the report text.
fn push_percent_line(out: &mut String, label: &str, x: usize, y: usize)
    ensures
        final(out)@ == old(out)@ + spec_percent_line(label@, x as nat, y as nat),
{
    out.append(label);
    let ratio = percent_text(x, y);
    out.append(ratio.as_str());
    out.append("\n");
    assert(out@ =~= old(out)@ + spec_percent_line(label@, x as nat, y as nat));
}

impl Counts {
    /// Consumes the gathered statistics and renders the report: the
    /// reference-operation totals and their breakdown, the fraction of
    /// instructions that are reference operations, the annotation totals,
    /// and the four classification percentages.
    pub fn report(self) -> (r: String)
        requires
            report_fits(self@),
        ensures
            r@ == spec_report(self@),
    {
        let total_reference_operations = self.total_reference_operations();
        let mut out = String::new();
        push_count_line(
            &mut out,
            "Total reference operations (not including move/copy/pop): ",
            total_reference_operations,
        );
        assert(out@ =~= spec_count_line(
            "Total reference operations (not including move/copy/pop): "@,
            self@.ref_ops_total(),
        ));
        push_count_line(&mut out, "  Total borrow local: ", self.imm_borrow_loc
            + self.mut_borrow_loc);
        push_count_line(&mut out, "    Imm borrow local: ", self.imm_borrow_loc);
        push_count_line(&mut out, "    Mut borrow local: ", self.mut_borrow_loc);
        push_count_line(&mut out, "  Total borrow field: ", self.imm_borrow_field
            + self.mut_borrow_field);
        push_count_line(&mut out, "    Imm borrow field: ", self.imm_borrow_field);
        push_count_line(&mut out, "    Mut borrow field: ", self.mut_borrow_field);
        push_count_line(&mut out, "  Total borrow global: ", self.imm_borrow_global
            + self.mut_borrow_global);
        push_count_line(&mut out, "    Imm borrow global: ", self.imm_borrow_global);
        push_count_line(&mut out, "    Mut borrow global: ", self.mut_borrow_global);
        push_count_line(&mut out, "  Freeze: ", self.freeze);
        push_percent_line(
            &mut out,
            "Fraction of instructions that are reference instructions: ",
            total_reference_operations,
            self.total_instructions,
        );
        out.append("\n");
        push_count_line(&mut out, "Total reference related annotations: ", self.reference_parameters
            + self.reference_return_values + self.acquires_annotations);
        push_count_line(
            &mut out,
            "  Total reference function type annotations: ",
            self.reference_parameters + self.reference_return_values,
        );
        push_count_line(&mut out, "    Reference parameters: ", self.reference_parameters);
        push_count_line(&mut out, "    Reference return values: ", self.reference_return_values);
        push_count_line(&mut out, "  Acquire annotations: ", self.acquires_annotations);
        out.append("\n");
        push_percent_line(
            &mut out,
            "Functions with reference operations: ",
            self.functions_with_reference_operations,
            self.total_functions,
        );
        push_percent_line(
            &mut out,
            "Functions with reference signatures: ",
            self.functions_with_reference_signatures,
            self.total_functions,
        );
        push_percent_line(
            &mut out,
            "Functions with acquires: ",
            self.functions_with_acquires,
            self.total_functions,
        );
        push_percent_line(
            &mut out,
            "Modules with acquires: ",
            self.modules_with_acquires,
            self.total_modules,
        );
        assert(out@ == spec_report(self@));
        out
    }
}

/// Analysing one corpus is deterministic: any two accumulators that each
/// hold the statistics of the same corpus render byte-identical reports.
pub proof fn lemma_report_deterministic(
    c1: CountsView,
    c2: CountsView,
    units: Seq<CompiledUnit>,
)
    requires
        c1 == corpus_delta(units),
        c2 == corpus_delta(units),
    ensures
        spec_report(c1) == spec_report(c2),
{
}

} // verus!
