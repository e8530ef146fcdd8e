//! The form that trains a new model: what a submission is checked for,
//! and the fields that the training request carries.

use vstd::prelude::*;
use crate::models::{AlgorithmSelection, AlgorithmSelectionView};
use crate::text::{is_blank, is_blank_spec, owned};
use crate::training::{TrainingKind, TrainingRun};

verus! {

/// What the user has entered in the form.
#[derive(Debug, PartialEq, Eq)]
pub struct TrainFormInput {
    /// The new model's name.
    pub name: String,
    /// Whether the training data is an uploaded CSV file (else a stored file).
    pub use_file: bool,
    /// The target column's name, for an uploaded file.
    pub target_column: String,
    /// Whether a file is chosen in the upload input.
    pub file_chosen: bool,
    /// The stored training file chosen, "" where none is.
    pub file_name: String,
    /// The algorithm and its parameter values, once one is chosen.
    pub algorithm: Option<AlgorithmSelection>,
}

/// The view of a [`TrainFormInput`].
pub struct TrainFormInputView {
    pub name: Seq<char>,
    pub use_file: bool,
    pub target_column: Seq<char>,
    pub file_chosen: bool,
    pub file_name: Seq<char>,
    pub algorithm: Option<AlgorithmSelectionView>,
}

impl View for TrainFormInput {
    type V = TrainFormInputView;

    open spec fn view(&self) -> TrainFormInputView {
        TrainFormInputView {
            name: self.name@,
            use_file: self.use_file,
            target_column: self.target_column@,
            file_chosen: self.file_chosen,
            file_name: self.file_name@,
            algorithm: self.algorithm.deep_view(),
        }
    }
}

/// The value of a field of the training request.
#[derive(Debug, PartialEq, Eq)]
pub enum FieldValue {
    Text(String),
    /// The file chosen in the upload input.
    ChosenFile,
}

/// The view of a [`FieldValue`].
pub enum FieldValueView {
    Text(Seq<char>),
    ChosenFile,
}

/// A named field of the training request.
#[derive(Debug, PartialEq, Eq)]
pub struct FormField {
    pub name: String,
    pub value: FieldValue,
}

/// The view of a [`FormField`].
pub struct FormFieldView {
    pub name: Seq<char>,
    pub value: FieldValueView,
}

impl View for FormField {
    type V = FormFieldView;

    open spec fn view(&self) -> FormFieldView {
        FormFieldView {
            name: self.name@,
            value: match self.value {
                FieldValue::Text(t) => FieldValueView::Text(t@),
                FieldValue::ChosenFile => FieldValueView::ChosenFile,
            },
        }
    }
}

impl DeepView for FormField {
    type V = FormFieldView;

    open spec fn deep_view(&self) -> FormFieldView {
        self@
    }
}

/// Where a refusal is told: in the page's banner, or in a browser alert.
#[derive(PartialEq, Eq, Structural, Clone, Copy, Debug)]
pub enum Notice {
    Banner,
    Alert,
}

/// What becomes of the form's busy flag.
#[derive(PartialEq, Eq, Structural, Clone, Copy, Debug)]
pub enum Busy {
    Unchanged,
    Cleared,
}

/// What a submission leads to.
#[derive(Debug, PartialEq, Eq)]
pub enum Submission {
    /// Nothing is sent; the message is told.
    Refused { message: String, notice: Notice, busy: Busy },
    /// The training request is sent with these fields; the form is busy.
    Sent { fields: Vec<FormField> },
}

/// The view of a [`Submission`].
pub enum SubmissionView {
    Refused { message: Seq<char>, notice: Notice, busy: Busy },
    Sent { fields: Seq<FormFieldView> },
}

impl View for Submission {
    type V = SubmissionView;

    open spec fn view(&self) -> SubmissionView {
        match self {
            Submission::Refused { message, notice, busy } => SubmissionView::Refused {
                message: message@,
                notice: *notice,
                busy: *busy,
            },
            Submission::Sent { fields } => SubmissionView::Sent { fields: fields.deep_view() },
        }
    }
}

/// A text field.
pub open spec fn text_field(name: Seq<char>, value: Seq<char>) -> FormFieldView {
    FormFieldView { name, value: FieldValueView::Text(value) }
}

/// The fields that name the training data.
pub open spec fn source_fields(input: TrainFormInputView) -> Seq<FormFieldView> {
    if input.use_file {
        seq![text_field("target_column"@, input.target_column)] + if input.file_chosen {
            seq![FormFieldView { name: "file"@, value: FieldValueView::ChosenFile }]
        } else {
            Seq::empty()
        }
    } else {
        seq![text_field("file_name"@, input.file_name)]
    }
}

/// The fields that name the algorithm and give its parameter values, in
/// the selection's order.
pub open spec fn algorithm_fields(algorithm: Option<AlgorithmSelectionView>) -> Seq<FormFieldView> {
    match algorithm {
        Some(sel) => seq![text_field("algorithm"@, sel.algorithm_id)] + sel.params.map_values(
            |p: (Seq<char>, Seq<char>)| text_field(p.0, p.1),
        ),
        None => Seq::empty(),
    }
}

/// All fields of the training request: the training data, the model's
/// name, version "1", then the algorithm.
pub open spec fn request_fields(input: TrainFormInputView) -> Seq<FormFieldView> {
    source_fields(input) + seq![text_field("model"@, input.name), text_field("version"@, "1"@)]
        + algorithm_fields(input.algorithm)
}

/// What a submission leads to. A blank name is refused in the banner,
/// leaving the busy flag; with an upload, an empty target column is refused
/// in an alert and the form is not busy; with a stored file, no file chosen
/// is refused in an alert and the form is not busy. Else the request is sent.
pub open spec fn submission_spec(input: TrainFormInputView) -> SubmissionView {
    if is_blank_spec(input.name) {
        SubmissionView::Refused {
            message: "Please enter a name for the model."@,
            notice: Notice::Banner,
            busy: Busy::Unchanged,
        }
    } else if input.use_file && input.target_column.len() == 0 {
        SubmissionView::Refused {
            message: "Please enter the target column name."@,
            notice: Notice::Alert,
            busy: Busy::Cleared,
        }
    } else if !input.use_file && input.file_name.len() == 0 {
        SubmissionView::Refused {
            message: "Please select a training data source."@,
            notice: Notice::Alert,
            busy: Busy::Cleared,
        }
    } else {
        SubmissionView::Sent { fields: request_fields(input) }
    }
}

fn text(name: &str, value: &String) -> (f: FormField)
    ensures
        f@ == text_field(name@, value@),
{
    FormField { name: owned(name), value: FieldValue::Text(value.clone()) }
}

fn refused(message: &str, notice: Notice, busy: Busy) -> (s: Submission)
    ensures
        s@ == (SubmissionView::Refused { message: message@, notice, busy }),
{
    Submission::Refused { message: owned(message), notice, busy }
}

/// Appends a field.
fn push_field(fields: &mut Vec<FormField>, f: FormField)
    ensures
        final(fields).deep_view() == old(fields).deep_view().push(f@),
{
    let ghost before = fields.deep_view();
    fields.push(f);
    assert(fields.deep_view() =~= before.push(f@));
}

/// The fields of the training request (see [`request_fields`]).
pub fn request_form(input: &TrainFormInput) -> (fields: Vec<FormField>)
    ensures
        fields.deep_view() == request_fields(input@),
{
    let mut fields: Vec<FormField> = Vec::new();
    if input.use_file {
        push_field(&mut fields, text("target_column", &input.target_column));
        if input.file_chosen {
            push_field(&mut fields, FormField { name: owned("file"), value: FieldValue::ChosenFile });
        }
    } else {
        push_field(&mut fields, text("file_name", &input.file_name));
    }
    assert(fields.deep_view() =~= source_fields(input@));
    push_field(&mut fields, text("model", &input.name));
    let one = owned("1");
    push_field(&mut fields, text("version", &one));
    let ghost head = fields.deep_view();
    assert(head =~= source_fields(input@) + seq![text_field("model"@, input.name@), text_field("version"@, "1"@)]);
    match &input.algorithm {
        Some(sel) => {
            push_field(&mut fields, text("algorithm", &sel.algorithm_id));
            let ghost ps = sel@.params;
            let ghost f = |p: (Seq<char>, Seq<char>)| text_field(p.0, p.1);
            for i in 0..sel.params.len()
                invariant
                    ps == sel@.params,
                    f == (|p: (Seq<char>, Seq<char>)| text_field(p.0, p.1)),
                    ps.len() == sel.params.len(),
                    fields.deep_view() == head + seq![text_field("algorithm"@, sel@.algorithm_id)]
                        + ps.take(i as int).map_values(f),
            {
                let (k, v) = &sel.params[i];
                assert(ps[i as int] == (k@, v@));
                let field = FormField { name: k.clone(), value: FieldValue::Text(v.clone()) };
                assert(field@ == f(ps[i as int]));
                let ghost before = fields.deep_view();
                push_field(&mut fields, field);
                assert(ps.take(i + 1).map_values(f) =~= ps.take(i as int).map_values(f).push(f(ps[i as int])));
                assert(fields.deep_view() =~= head + seq![text_field("algorithm"@, sel@.algorithm_id)]
                        + ps.take(i + 1).map_values(f));
            }
            assert(ps.take(ps.len() as int) =~= ps);
            assert(fields.deep_view() =~= request_fields(input@));
        },
        None => {
            assert(fields.deep_view() =~= request_fields(input@));
        },
    }
    fields
}

/// Checks a submission and, where it passes, gives the training request's
/// fields (see [`submission_spec`]).
pub fn submit(input: &TrainFormInput) -> (s: Submission)
    ensures
        s@ == submission_spec(input@),
        s is Sent <==> !is_blank_spec(input@.name) && if input@.use_file {
            input@.target_column.len() > 0
        } else {
            input@.file_name.len() > 0
        },
{
    if is_blank(input.name.as_str()) {
        return refused("Please enter a name for the model.", Notice::Banner, Busy::Unchanged);
    }
    if input.use_file && input.target_column.as_str().unicode_len() == 0 {
        return refused("Please enter the target column name.", Notice::Alert, Busy::Cleared);
    }
    if !input.use_file && input.file_name.as_str().unicode_len() == 0 {
        return refused("Please select a training data source.", Notice::Alert, Busy::Cleared);
    }
    Submission::Sent { fields: request_form(input) }
}

/// Whatever the training data source, a request carries the chosen
/// algorithm: its fields end with the algorithm's id and then one text
/// field per selected parameter, in the selection's order, right after the
/// model's name and version "1"; without an algorithm they end with the
/// version.
pub proof fn law_request_ends_with_algorithm(input: TrainFormInputView)
    ensures
        ({
            let fields = request_fields(input);
            let n = fields.len() as int;
            match input.algorithm {
                Some(sel) => {
                    let p = sel.params.len() as int;
                    &&& n >= p + 3
                    &&& fields[n - p - 3] == text_field("model"@, input.name)
                    &&& fields[n - p - 2] == text_field("version"@, "1"@)
                    &&& fields[n - p - 1] == text_field("algorithm"@, sel.algorithm_id)
                    &&& forall|i: int|
                        0 <= i < p ==> #[trigger] fields[n - p + i] == text_field(
                            sel.params[i].0,
                            sel.params[i].1,
                        )
                },
                None => {
                    &&& n >= 2
                    &&& fields[n - 2] == text_field("model"@, input.name)
                    &&& fields[n - 1] == text_field("version"@, "1"@)
                },
            }
        }),
{
    let fields = request_fields(input);
    let src = source_fields(input);
    let head = src + seq![text_field("model"@, input.name), text_field("version"@, "1"@)];
    match input.algorithm {
        Some(sel) => {
            let p = sel.params.len() as int;
            let tail = algorithm_fields(input.algorithm);
            assert(tail.len() == p + 1);
            assert(fields == head + tail);
            assert(fields.len() == head.len() + p + 1);
            assert(fields[head.len() - 2] == text_field("model"@, input.name));
            assert(fields[head.len() - 1] == text_field("version"@, "1"@));
            assert(fields[head.len() as int] == tail[0]);
            assert forall|i: int| 0 <= i < p implies #[trigger] fields[fields.len() - p + i]
                == text_field(sel.params[i].0, sel.params[i].1) by {
                assert(fields[fields.len() - p + i] == tail[i + 1]);
            }
        },
        None => {
            assert(fields =~= head);
        },
    }
}

/// Whether the form is busy after a submission, given whether it was
/// before: a refusal leaves the flag or clears it; a sent request makes the
/// form busy until the training run is over.
pub open spec fn busy_after(before: bool, s: SubmissionView) -> bool {
    match s {
        SubmissionView::Refused { busy, .. } => match busy {
            Busy::Unchanged => before,
            Busy::Cleared => false,
        },
        SubmissionView::Sent { .. } => true,
    }
}

/// Whether the form is busy after a submission (see [`busy_after`]).
pub fn busy_after_submit(before: bool, s: &Submission) -> (busy: bool)
    ensures
        busy == busy_after(before, s@),
{
    match s {
        Submission::Refused { busy, .. } => match busy {
            Busy::Unchanged => before,
            Busy::Cleared => false,
        },
        Submission::Sent { .. } => true,
    }
}

/// The form is busy only while a training request is in progress: a
/// submission from an idle form leaves it busy exactly when the request is
/// sent, and a refused submission never makes a form busy.
pub proof fn law_busy_only_while_training(before: bool, input: TrainFormInputView)
    ensures
        busy_after(false, submission_spec(input)) <==> submission_spec(input) is Sent,
        submission_spec(input) is Refused ==> (busy_after(before, submission_spec(input)) ==> before),
{
}

/// The training run that a sent form starts: a new model under the name
/// as entered.
pub fn training_run(input: &TrainFormInput) -> (run: TrainingRun)
    ensures
        run.model_name@ == input.name@,
        run.kind == TrainingKind::New,
{
    TrainingRun { model_name: input.name.clone(), kind: TrainingKind::New }
}

/// A sent request names the model as entered and version "1", once each,
/// right after the fields that name the training data.
pub proof fn law_sent_request_names_model(input: TrainFormInputView)
    requires
        submission_spec(input) is Sent,
    ensures
        ({
            let fields = request_fields(input);
            let n: int = source_fields(input).len() as int;
            &&& fields[n] == text_field("model"@, input.name)
            &&& fields[n + 1int] == text_field("version"@, "1"@)
        }),
{
}

/// The submit button's label.
pub fn train_label(busy: bool) -> (t: &'static str)
    ensures
        t@ == if busy { "Training…"@ } else { "Train Model"@ },
{
    if busy { "Training…" } else { "Train Model" }
}

/// The label over the training data input.
pub fn source_label(use_file: bool) -> (t: &'static str)
    ensures
        t@ == if use_file { "Upload Training Data (.csv)"@ } else { "Existing Training Data"@ },
{
    if use_file { "Upload Training Data (.csv)" } else { "Existing Training Data" }
}

} // verus!
