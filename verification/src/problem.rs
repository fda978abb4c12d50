//! Quiz problems: an immutable record of source markup, title and points,
//! and the fixed catalog the game is shipped with.

use vstd::prelude::*;

verus! {

/// One quiz item: a math-markup source string, a display title, and a
/// point value awarded for solving it.
pub struct Problem {
    pub source: String,
    pub title: String,
    pub points: u64,
}

/// The mathematical image of a [`Problem`]: its strings as character
/// sequences.
#[verifier::ext_equal]
pub struct ProblemView {
    pub source: Seq<char>,
    pub title: Seq<char>,
    pub points: u64,
}

impl View for Problem {
    type V = ProblemView;

    open spec fn view(&self) -> ProblemView {
        ProblemView { source: self.source@, title: self.title@, points: self.points }
    }
}

/// The views of a whole catalog, in order.
pub open spec fn catalog_view(ps: Seq<Problem>) -> Seq<ProblemView> {
    ps.map_values(|p: Problem| p@)
}

impl Problem {
    /// Builds a problem from borrowed strings.
    pub fn new(source: &str, title: &str, points: u64) -> (r: Problem)
        ensures
            r@ == (ProblemView { source: source@, title: title@, points }),
    {
        Problem { source: source.to_owned(), title: title.to_owned(), points }
    }
}

/// The fixed catalog of problems the game is shipped with: three facts
/// worth one, three and five points.
pub fn standard_catalog() -> (r: Vec<Problem>)
    ensures
        r@.len() == 3,
        r@[0]@ == (ProblemView {
            source: "e^{\\pi i} = -1"@,
            title: "Euler's Identity"@,
            points: 1,
        }),
        r@[1]@ == (ProblemView {
            source: "\\frac{\\mathrm{d}}{\\mathrm{d}x} = \\lim_{x\\to \\infty} \\frac{f(x+h)-f(x)}{h} "@,
            title: "Limit Definition of Derivative"@,
            points: 3,
        }),
        r@[2]@ == (ProblemView {
            source: "A=\\pi r^2"@,
            title: "Area of a Circle"@,
            points: 5,
        }),
{
    let mut r: Vec<Problem> = Vec::new();
    r.push(Problem::new("e^{\\pi i} = -1", "Euler's Identity", 1));
    r.push(Problem::new(
        "\\frac{\\mathrm{d}}{\\mathrm{d}x} = \\lim_{x\\to \\infty} \\frac{f(x+h)-f(x)}{h} ",
        "Limit Definition of Derivative",
        3,
    ));
    r.push(Problem::new("A=\\pi r^2", "Area of a Circle", 5));
    r
}

} // verus!
