//! The report that a finding turns into.
use vstd::prelude::*;
use crate::findings::FinalizerErrorKind;
use crate::program::Program;
use crate::ty::{Span, TyId};

verus! {

/// A remark attached to a region of source text.
#[derive(Debug)]
pub struct SpanLabel {
    pub span: Span,
    pub label: String,
}

/// An error report: a headline at a span, remarks at spans, and advice.
#[derive(Debug)]
pub struct Diagnostic {
    pub span: Span,
    pub message: String,
    pub labels: Vec<SpanLabel>,
    pub help: Option<String>,
}

pub struct DiagnosticView {
    pub span: Span,
    pub message: Seq<char>,
    pub labels: Seq<(Span, Seq<char>)>,
    pub help: Option<Seq<char>>,
}

impl View for SpanLabel {
    type V = (Span, Seq<char>);

    open spec fn view(&self) -> (Span, Seq<char>) {
        (self.span, self.label@)
    }
}

impl View for Diagnostic {
    type V = DiagnosticView;

    open spec fn view(&self) -> DiagnosticView {
        DiagnosticView {
            span: self.span,
            message: self.message@,
            labels: self.labels@.map_values(|l: SpanLabel| l@),
            help: match self.help {
                Some(h) => Some(h@),
                None => None,
            },
        }
    }
}

/// `before`, the quoted text, and `after`, in one string.
pub fn around(before: &str, quoted: &String, after: &str) -> (s: String)
    ensures
        s@ == before@ + quoted@ + after@,
{
    let mut s = String::from_str(before);
    s.append(quoted.as_str());
    s.append(after);
    s
}

impl SpanLabel {
    pub fn new(span: Span, label: String) -> (l: SpanLabel)
        ensures
            l@ == (span, label@),
    {
        SpanLabel { span, label }
    }

    pub fn from_str(span: Span, label: &str) -> (l: SpanLabel)
        ensures
            l@ == (span, label@),
    {
        SpanLabel { span, label: String::from_str(label) }
    }
}

impl Program {
    /// How the type at `t` is written.
    pub open spec fn ty_name(&self, t: TyId) -> Seq<char> {
        self.types@[t as int].name@
    }

    /// The headline of every report about a destructor of `drop_ty`.
    pub open spec fn headline(&self, drop_ty: TyId) -> Seq<char> {
        "The drop method for `"@ + self.ty_name(drop_ty) + "` cannot be safely finalized."@
    }

    /// The remarks that are particular to the finding.
    pub open spec fn finding_labels(&self, arg_span: Span, error: FinalizerErrorKind) -> Seq<
        (Span, Seq<char>),
    > {
        match error {
            FinalizerErrorKind::NotSendAndSync(_, pi) => seq![
                (pi.span, "a finalizer cannot safely use this `"@ + self.ty_name(pi.ty) + "`"@),
                (pi.span, "from a drop method because it does not implement `Send` + `Sync`."@),
            ],
            FinalizerErrorKind::NotFinalizerSafe(_, pi) => if self.types@[pi.ty as int].is_gc() {
                seq![
                    (
                        pi.span,
                        "a finalizer cannot safely dereference this `"@ + self.ty_name(pi.ty)
                            + "`"@,
                    ),
                    (pi.span, "from a drop method because it might have already been finalized."@),
                ]
            } else {
                seq![
                    (pi.span, "a finalizer cannot safely use this `"@ + self.ty_name(pi.ty) + "`"@),
                    (
                        pi.span,
                        "from a drop method because it does not implement `FinalizerSafe`."@,
                    ),
                ]
            },
            FinalizerErrorKind::UnsoundReference(_, pi) => seq![
                (
                    pi.span,
                    "a finalizer cannot safely dereference this `"@ + self.ty_name(pi.ty) + "`"@,
                ),
                (pi.span, "because it might not live long enough."@),
            ],
            FinalizerErrorKind::MissingFnDef(fi) => seq![
                (fi.span, "this function call may be unsafe to use in a finalizer."@),
            ],
            FinalizerErrorKind::UnknownTraitObject(_) => seq![
                (arg_span, "contains a trait object whose implementation is unknown."@),
            ],
            FinalizerErrorKind::UnsoundExternalDropGlue(fi) => seq![
                (
                    fi.span,
                    "this `"@ + self.ty_name(fi.drop_ty) + "` is not safe to be run as a finalizer"@,
                ),
            ],
            FinalizerErrorKind::InlineAsm(fi) => seq![
                (fi.span, "this assembly block is not safe to run in a finalizer"@),
            ],
        }
    }

    /// The advice that goes with the finding, for the kinds that have any.
    pub open spec fn finding_help(&self, error: FinalizerErrorKind) -> Option<Seq<char>> {
        match error {
            FinalizerErrorKind::NotSendAndSync(_, _) => Some(
                "`Gc` runs finalizers on a separate thread, so drop methods\nmust only use values which are thread-safe."@,
            ),
            FinalizerErrorKind::NotFinalizerSafe(_, pi) => if self.types@[pi.ty as int].is_gc() {
                None
            } else {
                Some(
                    "`Gc` runs finalizers on a separate thread, so drop methods\nmust only use values whose types implement `FinalizerSafe`."@,
                )
            },
            FinalizerErrorKind::UnsoundReference(_, _) => Some(
                "`Gc` may run finalizers after the valid lifetime of this reference."@,
            ),
            _ => None,
        }
    }

    /// The report for one finding of the analysis of a handle constructed at
    /// `fn_span` around the argument at `arg_span`, of type `value_ty`: the
    /// headline at the argument, the finding's own remarks, and last a remark
    /// at the construction.
    pub open spec fn diagnostic(
        &self,
        fn_span: Span,
        arg_span: Span,
        value_ty: TyId,
        error: FinalizerErrorKind,
    ) -> DiagnosticView {
        DiagnosticView {
            span: arg_span,
            message: self.headline(error.fn_info().drop_ty),
            labels: self.finding_labels(arg_span, error).push(
                (
                    fn_span,
                    "caused by trying to construct a `Gc<"@ + self.ty_name(value_ty) + ">` here."@,
                ),
            ),
            help: self.finding_help(error),
        }
    }
}

} // verus!
