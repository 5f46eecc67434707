//! Diagnostics of a GraphQL validation, taken from the compiler's reports.
use vstd::prelude::*;
use vstd::string::*;

use crate::rules::AwcDiagnosticSeverity;

verus! {

#[verifier::external_type_specification]
#[verifier::external_body]
pub struct ExApolloDiagnostic(apollo_compiler::ApolloDiagnostic);

#[verifier::external_type_specification]
#[verifier::external_body]
pub struct ExReport(miette::Report);

/// Relies on `ApolloDiagnostic::report`: the diagnostic as a report.
pub assume_specification[ apollo_compiler::ApolloDiagnostic::report ](
    d: &apollo_compiler::ApolloDiagnostic,
) -> miette::Report;

/// Relies on `Diagnostic::code` of a report: its code, written out.
#[verifier::external_body]
fn report_code(report: &miette::Report) -> (r: Option<String>) {
    report.code().map(|c| c.to_string())
}

/// Relies on `Diagnostic::help` of a report: its help text, written out.
#[verifier::external_body]
fn report_help(report: &miette::Report) -> (r: Option<String>) {
    report.help().map(|h| h.to_string())
}

/// Relies on `Diagnostic::url` of a report: its URL, written out.
#[verifier::external_body]
fn report_url(report: &miette::Report) -> (r: Option<String>) {
    report.url().map(|u| u.to_string())
}

/// Relies on `Diagnostic::severity` of a report: its severity, if it has
/// one, which is one of miette's advice, warning and error.
#[verifier::external_body]
fn report_severity(report: &miette::Report) -> (r: Option<AwcDiagnosticSeverity>)
    ensures
        r is Some ==> r->Some_0 != AwcDiagnosticSeverity::Other,
{
    report.severity().map(
        |s| match s {
            miette::Severity::Advice => AwcDiagnosticSeverity::Advice,
            miette::Severity::Warning => AwcDiagnosticSeverity::Warning,
            miette::Severity::Error => AwcDiagnosticSeverity::Error,
        },
    )
}

/// Relies on `Diagnostic::labels` of a report and `LabeledSpan::label`: the
/// text of each label, in order, when the report has labels.
#[verifier::external_body]
fn report_label_texts(report: &miette::Report) -> (r: Option<Vec<Option<String>>>) {
    report.labels().map(|ls| ls.map(|l| l.label().map(|t| t.to_string())).collect())
}

/// Where a label points in the document.
pub struct AwcSpan {
    length: Option<usize>,
    offset: Option<usize>,
}

impl View for AwcSpan {
    type V = (Option<usize>, Option<usize>);

    closed spec fn view(&self) -> (Option<usize>, Option<usize>) {
        (self.length, self.offset)
    }
}

impl AwcSpan {
    /// The span's length.
    pub fn length(&self) -> (r: Option<usize>)
        ensures
            r == self@.0,
    {
        self.length
    }

    /// The span's offset.
    pub fn offset(&self) -> (r: Option<usize>)
        ensures
            r == self@.1,
    {
        self.offset
    }

    /// A span of the given length and offset; none when both are missing.
    pub fn new(length: Option<usize>, offset: Option<usize>) -> (r: Option<AwcSpan>)
        ensures
            r is None <==> (length is None && offset is None),
            r is Some ==> r->Some_0@ == (length, offset),
    {
        if length.is_none() && offset.is_none() {
            None
        } else {
            Some(AwcSpan { length, offset })
        }
    }
}

/// The view of an optional string.
pub open spec fn text_view(s: Option<String>) -> Option<Seq<char>> {
    match s {
        Some(t) => Some(t@),
        None => None,
    }
}

/// An annotation of the GraphQL document.
pub struct AwcLabel {
    label: Option<String>,
    span: Option<AwcSpan>,
}

impl View for AwcLabel {
    type V = (Option<Seq<char>>, Option<(Option<usize>, Option<usize>)>);

    closed spec fn view(&self) -> Self::V {
        (
            text_view(self.label),
            match self.span {
                Some(s) => Some(s@),
                None => None,
            },
        )
    }
}

impl AwcLabel {
    /// The label's text.
    pub fn label(&self) -> (r: &Option<String>)
        ensures
            text_view(*r) == self@.0,
    {
        &self.label
    }

    /// Where the label points.
    pub fn span(&self) -> (r: &Option<AwcSpan>)
        ensures
            match *r {
                Some(s) => self@.1 == Some(s@),
                None => self@.1 is None,
            },
    {
        &self.span
    }

    /// A label with the given text and span; none when all three are
    /// missing, and no span when both length and offset are missing.
    pub fn new(label: Option<String>, length: Option<usize>, offset: Option<usize>) -> (r: Option<
        AwcLabel,
    >)
        ensures
            r is None <==> (label is None && length is None && offset is None),
            r is Some ==> r->Some_0@ == (
                text_view(label),
                if length is None && offset is None {
                    None::<(Option<usize>, Option<usize>)>
                } else {
                    Some((length, offset))
                },
            ),
    {
        if label.is_none() && length.is_none() && offset.is_none() {
            None
        } else {
            let span = AwcSpan::new(length, offset);
            Some(AwcLabel { label, span })
        }
    }
}

/// The texts of the labels that are kept: those that have a text, in order.
pub open spec fn kept_labels(texts: Seq<Option<Seq<char>>>) -> Seq<Seq<char>>
    decreases texts.len(),
{
    if texts.len() == 0 {
        Seq::empty()
    } else {
        let rest = kept_labels(texts.drop_last());
        match texts.last() {
            Some(t) => rest.push(t),
            None => rest,
        }
    }
}

/// The views of a sequence of optional strings.
pub open spec fn texts_view(texts: Seq<Option<String>>) -> Seq<Option<Seq<char>>> {
    texts.map_values(|t: Option<String>| text_view(t))
}

/// A single diagnostic of a validation.
pub struct AwcDiagnostic {
    code: Option<String>,
    labels: Option<Vec<AwcLabel>>,
    help: Option<String>,
    severity: AwcDiagnosticSeverity,
    url: Option<String>,
}

impl AwcDiagnostic {
    /// The diagnostic's severity.
    pub closed spec fn severity_view(&self) -> AwcDiagnosticSeverity {
        self.severity
    }

    /// The diagnostic's code.
    pub closed spec fn code_view(&self) -> Option<Seq<char>> {
        text_view(self.code)
    }

    /// The diagnostic's help text.
    pub closed spec fn help_view(&self) -> Option<Seq<char>> {
        text_view(self.help)
    }

    /// The diagnostic's URL.
    pub closed spec fn url_view(&self) -> Option<Seq<char>> {
        text_view(self.url)
    }

    /// The diagnostic's labels; none rather than an empty list.
    pub closed spec fn labels_view(&self) -> Option<Seq<(Option<Seq<char>>, Option<(Option<usize>, Option<usize>)>)>> {
        match self.labels {
            Some(v) => Some(v@.map_values(|l: AwcLabel| l@)),
            None => None,
        }
    }

    /// The diagnostic's code.
    pub fn code(&self) -> (r: &Option<String>)
        ensures
            text_view(*r) == self.code_view(),
    {
        &self.code
    }

    /// The diagnostic's help text.
    pub fn help(&self) -> (r: &Option<String>)
        ensures
            text_view(*r) == self.help_view(),
    {
        &self.help
    }

    /// The diagnostic's URL.
    pub fn url(&self) -> (r: &Option<String>)
        ensures
            text_view(*r) == self.url_view(),
    {
        &self.url
    }

    /// The diagnostic's labels.
    pub fn labels(&self) -> (r: &Option<Vec<AwcLabel>>)
        ensures
            match *r {
                Some(v) => self.labels_view() == Some(v@.map_values(|l: AwcLabel| l@)),
                None => self.labels_view() is None,
            },
    {
        &self.labels
    }

    /// The severity of the diagnostic.
    pub fn severity(&self) -> (r: AwcDiagnosticSeverity)
        ensures
            r == self.severity_view(),
    {
        self.severity
    }

    /// A diagnostic from the parts of a report: a missing severity becomes
    /// `Other`, and each label text becomes a label without a span; labels
    /// without text are dropped, and no labels at all are kept as none.
    pub fn from_parts(
        code: Option<String>,
        label_texts: Option<Vec<Option<String>>>,
        help: Option<String>,
        severity: Option<AwcDiagnosticSeverity>,
        url: Option<String>,
    ) -> (r: AwcDiagnostic)
        ensures
            r.code_view() == text_view(code),
            r.help_view() == text_view(help),
            r.url_view() == text_view(url),
            r.severity_view() == match severity {
                Some(s) => s,
                None => AwcDiagnosticSeverity::Other,
            },
            match label_texts {
                Some(v) => {
                    let kept = kept_labels(texts_view(v@));
                    if kept.len() == 0 {
                        r.labels_view() is None
                    } else {
                        r.labels_view() == Some(
                            kept.map_values(
                                |t: Seq<char>|
                                    (
                                        Some(t),
                                        None::<(Option<usize>, Option<usize>)>,
                                    ),
                            ),
                        )
                    }
                },
                None => r.labels_view() is None,
            },
    {
        let severity = match severity {
            Some(s) => s,
            None => AwcDiagnosticSeverity::Other,
        };
        let labels = match label_texts {
            Some(texts) => {
                let mut labels: Vec<AwcLabel> = Vec::new();
                let mut i: usize = 0;
                while i < texts.len()
                    invariant
                        i <= texts@.len(),
                        labels@.map_values(|l: AwcLabel| l@) == kept_labels(
                            texts_view(texts@.subrange(0, i as int)),
                        ).map_values(
                            |t: Seq<char>| (Some(t), None::<(Option<usize>, Option<usize>)>),
                        ),
                    decreases texts@.len() - i,
                {
                    let ghost before = texts@.subrange(0, i as int);
                    let ghost upto = texts@.subrange(0, i + 1);
                    let ghost old_labels = labels@;
                    proof {
                        assert(upto.drop_last() =~= before);
                        assert(texts_view(upto).drop_last() =~= texts_view(before));
                        assert(texts_view(upto).last() == text_view(texts@[i as int]));
                    }
                    match &texts[i] {
                        Some(t) => {
                            let label = AwcLabel::new(Some(t.clone()), None, None);
                            match label {
                                Some(l) => {
                                    labels.push(l);
                                    assert(labels@.map_values(|l: AwcLabel| l@) =~= old_labels.map_values(
                                        |l: AwcLabel| l@,
                                    ).push(l@));
                                    assert(kept_labels(texts_view(upto)) == kept_labels(
                                        texts_view(before),
                                    ).push(t@));
                                    assert(labels@.map_values(|l: AwcLabel| l@) =~= kept_labels(
                                        texts_view(upto),
                                    ).map_values(
                                        |t: Seq<char>| (Some(t), None::<(Option<usize>, Option<usize>)>),
                                    ));
                                },
                                None => {},
                            }
                        },
                        None => {
                            assert(kept_labels(texts_view(upto)) == kept_labels(texts_view(before)));
                        },
                    }
                    i = i + 1;
                }
                assert(texts@.subrange(0, texts@.len() as int) == texts@);
                if labels.len() == 0 {
                    None
                } else {
                    Some(labels)
                }
            },
            None => None,
        };
        AwcDiagnostic { code, labels, help, severity, url }
    }

    /// The diagnostic that the compiler's report of `diagnostic` describes.
    pub fn from_apollo(diagnostic: &apollo_compiler::ApolloDiagnostic) -> (r: AwcDiagnostic) {
        let report = diagnostic.report();
        let help = report_help(&report);
        let severity = report_severity(&report);
        let url = report_url(&report);
        let code = report_code(&report);
        let labels = report_label_texts(&report);
        AwcDiagnostic::from_parts(code, labels, help, severity, url)
    }
}

} // verus!
