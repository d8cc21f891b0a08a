//! Structured, span-located diagnostics collected while building a schema,
//! independent of any rendering to a terminal.

use vstd::prelude::*;

verus! {

/// How serious a diagnostic is.
#[derive(Clone, Copy, Debug, PartialEq, Eq, Structural)]
pub enum Severity {
    Bug,
    Error,
    Warning,
    Note,
    Help,
}

/// One labelled source range: a half-open UTF-8 byte-offset span into the
/// file named by `file_id`, with a note.
#[derive(Clone, Debug, PartialEq, Eq)]
pub struct Label {
    pub file_id: usize,
    pub start: usize,
    pub end: usize,
    pub message: String,
}

/// Mathematical model of a [`Label`].
pub struct LabelView {
    pub file_id: int,
    pub start: int,
    pub end: int,
    pub message: Seq<char>,
}

impl View for Label {
    type V = LabelView;

    open spec fn view(&self) -> LabelView {
        LabelView {
            file_id: self.file_id as int,
            start: self.start as int,
            end: self.end as int,
            message: self.message@,
        }
    }
}

/// One structured diagnostic record: severity, message and labelled spans.
#[derive(Clone, Debug, PartialEq, Eq)]
pub struct Diagnostic {
    pub severity: Severity,
    pub message: String,
    pub labels: Vec<Label>,
}

/// Mathematical model of a [`Diagnostic`].
pub struct DiagnosticView {
    pub severity: Severity,
    pub message: Seq<char>,
    pub labels: Seq<LabelView>,
}

impl View for Diagnostic {
    type V = DiagnosticView;

    open spec fn view(&self) -> DiagnosticView {
        DiagnosticView {
            severity: self.severity,
            message: self.message@,
            labels: self.labels@.map_values(|l: Label| l@),
        }
    }
}

/// An append-only accumulator of diagnostics for one source file, threaded
/// through a single parse and never reused across files.
pub struct Context {
    pub diags: Vec<Diagnostic>,
    pub file_id: usize,
}

/// The diagnostics a context holds, as a sequence of models.
pub open spec fn spec_diags(ctx: Context) -> Seq<DiagnosticView> {
    ctx.diags@.map_values(|d: Diagnostic| d@)
}

impl Context {
    /// A fresh context for the given file, holding no diagnostics.
    pub fn new(file_id: usize) -> (r: Context)
        ensures
            r.diags@ =~= Seq::<Diagnostic>::empty(),
            r.file_id == file_id,
    {
        Context { diags: Vec::new(), file_id }
    }

    /// Appends one diagnostic: a severity, a message, and one labelled
    /// half-open span into this context's file, carrying a note.
    pub fn push(&mut self, severity: Severity, message: String, start: usize, end: usize, note: String)
        ensures
            final(self).file_id == old(self).file_id,
            spec_diags(*final(self)) == spec_diags(*old(self)).push(
                (DiagnosticView {
                    severity,
                    message: message@,
                    labels: seq![
                        LabelView {
                            file_id: old(self).file_id as int,
                            start: start as int,
                            end: end as int,
                            message: note@,
                        },
                    ],
                }),
            ),
    {
        let ghost target = DiagnosticView {
            severity,
            message: message@,
            labels: seq![
                LabelView {
                    file_id: self.file_id as int,
                    start: start as int,
                    end: end as int,
                    message: note@,
                },
            ],
        };
        let label = Label { file_id: self.file_id, start, end, message: note };
        let mut labels: Vec<Label> = Vec::new();
        labels.push(label);
        let diag = Diagnostic { severity, message, labels };
        proof {
            assert(diag@.labels =~= target.labels);
            assert(diag@ == target);
        }
        self.diags.push(diag);
        proof {
            assert(spec_diags(*self) =~= spec_diags(*old(self)).push(target));
        }
    }

    /// The diagnostics collected so far, in the order they were raised.
    pub fn diagnostics(&self) -> (r: &Vec<Diagnostic>)
        ensures
            r@ == self.diags@,
    {
        &self.diags
    }
}

} // verus!
