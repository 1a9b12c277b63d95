use vstd::prelude::*;

verus! {

/// The line that names the fitted line and its coefficient of determination,
/// given the three numbers already written as text.
pub open spec fn fit_text(intercept: Seq<char>, slope: Seq<char>, r_squared: Seq<char>) -> Seq<char> {
    "Line of best fit: y = "@ + intercept + " + "@ + slope + "x \nR-squared: "@ + r_squared
}

/// The full summary: a heading, its underline, then the fit text, each ending
/// with a line break.
pub open spec fn summary_spec(intercept: Seq<char>, slope: Seq<char>, r_squared: Seq<char>) -> Seq<char> {
    "SLR Model\n---------\n"@ + fit_text(intercept, slope, r_squared) + "\n"@
}

/// Lays out the fitted line `y = <intercept> + <slope>x` and the R-squared value.
pub fn format_fit(intercept: &str, slope: &str, r_squared: &str) -> (r: String)
    ensures
        r@ == fit_text(intercept@, slope@, r_squared@),
{
    let mut r = String::from_str("Line of best fit: y = ");
    r.append(intercept);
    r.append(" + ");
    r.append(slope);
    r.append("x \nR-squared: ");
    r.append(r_squared);
    r
}

/// Lays out the summary of a fitted model under its heading.
pub fn format_summary(intercept: &str, slope: &str, r_squared: &str) -> (r: String)
    ensures
        r@ == summary_spec(intercept@, slope@, r_squared@),
{
    let fit = format_fit(intercept, slope, r_squared);
    let mut r = String::from_str("SLR Model\n---------\n");
    r.append(fit.as_str());
    r.append("\n");
    r
}

} // verus!
