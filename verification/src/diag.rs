//! The diagnostic handler.
//!
//! Diagnostics accumulate, in order, during one invocation; on failure they
//! are rendered into a single human-readable report that attributes each
//! message to the registered source, without color, never skipping the file
//! identity when one is available.

use vstd::prelude::*;

use crate::registry::{
    lemma_line_index_bounds, lemma_line_starts_first, line_index, spec_line_index, FileName,
    SourceFile, SpecFileName, SpecSourceFile,
};

verus! {

/// How grave a compiler-emitted message is.
#[derive(Clone, Copy, PartialEq, Eq, Structural, Debug)]
pub enum Severity {
    Error,
    Warning,
}

/// One compiler-emitted message: its severity, an optional byte offset into
/// the registered source, and its text.
#[derive(Clone, Debug)]
pub struct Diagnostic {
    pub severity: Severity,
    pub offset: Option<usize>,
    pub message: String,
}

/// The mathematical value of a `Diagnostic`.
pub struct SpecDiagnostic {
    pub severity: Severity,
    pub offset: Option<usize>,
    pub message: Seq<char>,
}

impl View for Diagnostic {
    type V = SpecDiagnostic;

    open spec fn view(&self) -> SpecDiagnostic {
        SpecDiagnostic { severity: self.severity, offset: self.offset, message: self.message@ }
    }
}

/// The ordered collection of diagnostics of one invocation. Created empty
/// at invocation start and consumed exactly once at its end.
pub struct DiagnosticHandler {
    diags: Vec<Diagnostic>,
}

impl View for DiagnosticHandler {
    type V = Seq<SpecDiagnostic>;

    closed spec fn view(&self) -> Seq<SpecDiagnostic> {
        self.diags@.map_values(|d: Diagnostic| d@)
    }
}

/// The decimal digits of a non-negative number.
pub open spec fn spec_dec_digits(n: int) -> Seq<char>
    decreases n,
{
    if n < 10 {
        seq![spec_digit_char(n)]
    } else {
        spec_dec_digits(n / 10).push(spec_digit_char(n % 10))
    }
}

/// The character of one decimal digit.
pub open spec fn spec_digit_char(d: int) -> char
    recommends
        0 <= d < 10,
{
    ((48 + d) as u8) as char
}

/// The character of one decimal digit.
fn digit_str(d: usize) -> (r: &'static str)
    requires
        d < 10,
    ensures
        r@ == seq![spec_digit_char(d as int)],
{
    proof {
        reveal_strlit("0");
        reveal_strlit("1");
        reveal_strlit("2");
        reveal_strlit("3");
        reveal_strlit("4");
        reveal_strlit("5");
        reveal_strlit("6");
        reveal_strlit("7");
        reveal_strlit("8");
        reveal_strlit("9");
    }
    if d == 0 {
        "0"
    } else if d == 1 {
        "1"
    } else if d == 2 {
        "2"
    } else if d == 3 {
        "3"
    } else if d == 4 {
        "4"
    } else if d == 5 {
        "5"
    } else if d == 6 {
        "6"
    } else if d == 7 {
        "7"
    } else if d == 8 {
        "8"
    } else {
        "9"
    }
}

/// Renders a number in decimal.
pub fn dec_string(n: usize) -> (r: String)
    ensures
        r@ == spec_dec_digits(n as int),
    decreases n,
{
    if n < 10 {
        String::from_str(digit_str(n))
    } else {
        let mut s = dec_string(n / 10);
        s.append(digit_str(n % 10));
        proof {
            assert(s@ =~= spec_dec_digits(n as int / 10).push(spec_digit_char(n as int % 10)));
        }
        s
    }
}

/// The label that opens a rendered diagnostic.
pub open spec fn spec_severity_label(s: Severity) -> Seq<char> {
    match s {
        Severity::Error => "error: "@,
        Severity::Warning => "warning: "@,
    }
}

/// The display form of a source identity: anonymous sources render as
/// `<anon>`, real ones as their path.
pub open spec fn spec_display_name(n: SpecFileName) -> Seq<char> {
    match n {
        SpecFileName::Anon => "<anon>"@,
        SpecFileName::Real(p) => p,
    }
}

/// The location suffix of a rendered diagnostic: one-based line and column
/// for an offset that lies within the source, nothing otherwise.
pub open spec fn spec_location_suffix(off: Option<usize>, f: SpecSourceFile) -> Seq<char> {
    match off {
        Option::None => Seq::empty(),
        Option::Some(o) => if o < f.src.len() {
            " at "@ + spec_display_name(f.name) + ":"@ + spec_dec_digits(
                spec_line_index(f.line_starts, o) + 1,
            ) + ":"@ + spec_dec_digits(o - f.line_starts[spec_line_index(f.line_starts, o)] + 1)
        } else {
            Seq::empty()
        },
    }
}

/// One rendered diagnostic: label, message, location, newline.
pub open spec fn spec_render_diag(d: SpecDiagnostic, f: SpecSourceFile) -> Seq<char> {
    spec_severity_label(d.severity) + d.message + spec_location_suffix(d.offset, f) + "\n"@
}

/// A whole rendered report: every diagnostic in order of emission.
pub open spec fn spec_render_report(diags: Seq<SpecDiagnostic>, f: SpecSourceFile) -> Seq<char>
    decreases diags.len(),
{
    if diags.len() == 0 {
        Seq::empty()
    } else {
        spec_render_report(diags.drop_last(), f) + spec_render_diag(diags.last(), f)
    }
}

/// The label that opens a rendered diagnostic.
fn severity_label(s: Severity) -> (r: &'static str)
    ensures
        r@ == spec_severity_label(s),
{
    match s {
        Severity::Error => "error: ",
        Severity::Warning => "warning: ",
    }
}

/// Renders one diagnostic against the source it points into.
fn render_diag(d: &Diagnostic, f: &SourceFile) -> (r: String)
    requires
        f@.wf(),
    ensures
        r@ == spec_render_diag(d@, f@),
{
    let mut s = String::from_str(severity_label(d.severity));
    s.append(d.message.as_str());
    match d.offset {
        Option::None => {
            proof {
                assert(s@ =~= spec_severity_label(d.severity) + d.message@ + Seq::<
                    char,
                >::empty());
            }
        },
        Option::Some(o) => {
            if o < f.src.len() {
                proof {
                    lemma_line_starts_first(f.src@);
                    lemma_line_index_bounds(f.line_starts@, o);
                }
                s.append(" at ");
                match &f.name {
                    FileName::Anon => s.append("<anon>"),
                    FileName::Real(p) => s.append(p.as_str()),
                }
                s.append(":");
                let line = line_index(&f.line_starts, o);
                let table_len = f.line_starts.len();
                assert(line < table_len);
                let line_text = dec_string(line + 1);
                s.append(line_text.as_str());
                s.append(":");
                let col = o - f.line_starts[line];
                let col_text = dec_string(col + 1);
                s.append(col_text.as_str());
                proof {
                    assert(s@ =~= spec_severity_label(d.severity) + d.message@
                        + spec_location_suffix(d@.offset, f@));
                }
            } else {
                proof {
                    assert(s@ =~= spec_severity_label(d.severity) + d.message@ + Seq::<
                        char,
                    >::empty());
                }
            }
        },
    }
    s.append("\n");
    proof {
        assert(s@ =~= spec_render_diag(d@, f@));
    }
    s
}

impl DiagnosticHandler {
    /// Constructs the handler of a fresh invocation: no diagnostics yet.
    pub fn create() -> (r: Self)
        ensures
            r@ == Seq::<SpecDiagnostic>::empty(),
    {
        let r = DiagnosticHandler { diags: Vec::new() };
        proof {
            assert(r@ =~= Seq::<SpecDiagnostic>::empty());
        }
        r
    }

    /// How many diagnostics have accumulated.
    pub fn count(&self) -> (n: usize)
        ensures
            n == self@.len(),
    {
        self.diags.len()
    }

    /// Appends one compiler-emitted diagnostic.
    pub fn emit(&mut self, d: Diagnostic)
        ensures
            final(self)@ == old(self)@.push(d@),
    {
        let ghost dv = d@;
        self.diags.push(d);
        proof {
            assert(self.diags@.map_values(|x: Diagnostic| x@) =~= old(self).diags@.map_values(
                |x: Diagnostic| x@,
            ).push(dv));
        }
    }

    /// Renders the accumulated diagnostics into a single report.
    pub fn render_report(&self, f: &SourceFile) -> (r: String)
        requires
            f@.wf(),
        ensures
            r@ == spec_render_report(self@, f@),
    {
        let mut s = String::new();
        let mut i: usize = 0;
        proof {
            assert(self@.take(0) =~= Seq::<SpecDiagnostic>::empty());
        }
        while i < self.diags.len()
            invariant
                i <= self.diags.len(),
                self@ == self.diags@.map_values(|d: Diagnostic| d@),
                self@.len() == self.diags@.len(),
                f@.wf(),
                s@ == spec_render_report(self@.take(i as int), f@),
            decreases self.diags.len() - i,
        {
            let one = render_diag(&self.diags[i], f);
            s.append(one.as_str());
            proof {
                assert(self@.take(i + 1).drop_last() =~= self@.take(i as int));
                assert(self@.take(i + 1).last() == self@[i as int]);
            }
            i = i + 1;
        }
        proof {
            assert(self@.take(self.diags@.len() as int) =~= self@);
        }
        s
    }
}

} // verus!
