//! The form widget extractor: turning a page's annotation list into
//! per-widget reports.
//!
//! The shell walks the page's annotations in native order and hands
//! this module one [`PageAnnotation`] per entry — its bounds, and its
//! form-field facts where it has any.  [`collect_widgets`] keeps
//! exactly the form-field-bearing entries and reports each widget's
//! ordinal position in the full annotation list, its bounds, its field
//! type, its text value (text fields only) and its checked state
//! (checkboxes and radio buttons only).

use vstd::prelude::*;
use crate::geometry::Rect;

verus! {

/// The field types the native engine distinguishes.
#[derive(Clone, Copy, PartialEq, Eq, Structural, Debug)]
pub enum FieldKind {
    Unknown,
    PushButton,
    Checkbox,
    RadioButton,
    ComboBox,
    ListBox,
    Text,
    Signature,
}

/// The form-field facts of one annotation, as read from the native
/// engine: the field type, the current value where the engine could
/// read one, and the checked state where it could read one.
#[derive(Clone, PartialEq, Eq, Debug)]
pub struct FormFieldData {
    /// The field's type tag.
    pub kind: FieldKind,
    /// The field's current text value, `None` when unset or
    /// unreadable.
    pub text_value: Option<String>,
    /// The field's checked state, `None` when unreadable.
    pub checked: Option<bool>,
}

/// One entry of a page's annotation list: its bounds, and its form
/// field where it exposes one.
#[derive(Clone, PartialEq, Eq, Debug)]
pub struct PageAnnotation {
    /// The annotation's bounding rectangle.
    pub bounds: Rect,
    /// The form-field facts, `None` for an annotation that is no form
    /// field.
    pub form_field: Option<FormFieldData>,
}

/// One reported form widget.
#[derive(Clone, PartialEq, Eq, Debug)]
pub struct FormWidget {
    /// Ordinal position in the page's full annotation list — not a
    /// form-field-only counter.
    pub index: usize,
    /// The widget's bounding rectangle.
    pub bounds: Rect,
    /// The field's type tag.
    pub field_type: FieldKind,
    /// The current value for a text field, empty for every other kind
    /// and for an unreadable value.
    pub value: String,
    /// The checked state for a checkbox or radio button, `false` for
    /// every other kind and for an unreadable state.
    pub checked: bool,
}

/// The mathematical shape of one reported widget.
pub struct WidgetModel {
    pub index: int,
    pub bounds: Rect,
    pub field_type: FieldKind,
    pub value: Seq<char>,
    pub checked: bool,
}

impl View for FormWidget {
    type V = WidgetModel;

    open spec fn view(&self) -> WidgetModel {
        WidgetModel {
            index: self.index as int,
            bounds: self.bounds,
            field_type: self.field_type,
            value: self.value@,
            checked: self.checked,
        }
    }
}

/// The value reported for form-field facts `f`: the text value for a
/// text field, empty for every other kind and for an unset value.
pub open spec fn spec_widget_value(f: FormFieldData) -> Seq<char> {
    if f.kind is Text {
        match f.text_value {
            Some(s) => s@,
            None => Seq::empty(),
        }
    } else {
        Seq::empty()
    }
}

/// The checked state reported for form-field facts `f`: the read
/// state for a checkbox or radio button, `false` otherwise.
pub open spec fn spec_widget_checked(f: FormFieldData) -> bool {
    if f.kind is Checkbox || f.kind is RadioButton {
        match f.checked {
            Some(b) => b,
            None => false,
        }
    } else {
        false
    }
}

/// The widget reported for the annotation at `index` with bounds
/// `bounds` and form-field facts `f`.
pub open spec fn spec_widget(index: int, bounds: Rect, f: FormFieldData) -> WidgetModel {
    WidgetModel {
        index: index,
        bounds: bounds,
        field_type: f.kind,
        value: spec_widget_value(f),
        checked: spec_widget_checked(f),
    }
}

/// The widgets of an annotation list: one per form-field-bearing
/// entry, in list order, each carrying its position in the full list.
pub open spec fn spec_widgets(annots: Seq<PageAnnotation>) -> Seq<WidgetModel>
    decreases annots.len(),
{
    if annots.len() == 0 {
        Seq::empty()
    } else {
        let prefix = spec_widgets(annots.drop_last());
        match annots.last().form_field {
            None => prefix,
            Some(f) => prefix.push(
                spec_widget(annots.len() - 1, annots.last().bounds, f),
            ),
        }
    }
}

/// Reads the checked state out of form-field facts, defaulting to
/// `false` for kinds without one and for an unreadable state.
fn widget_checked(f: &FormFieldData) -> (r: bool)
    ensures
        r == spec_widget_checked(*f),
{
    match f.kind {
        FieldKind::Checkbox | FieldKind::RadioButton => match f.checked {
            Some(b) => b,
            None => false,
        },
        _ => false,
    }
}

/// The widget list a form-widget query returns: the widgets of the
/// page's annotation list for an in-range page, and the empty list
/// for an out-of-range index — never an error.
pub fn widgets_result(in_bounds: bool, annotations: &Vec<PageAnnotation>) -> (r: Vec<FormWidget>)
    ensures
        in_bounds ==> r@.len() == spec_widgets(annotations@).len(),
        in_bounds ==> forall|k: int|
            0 <= k < r@.len() ==> r@[k]@ == spec_widgets(annotations@)[k],
        !in_bounds ==> r@ == Seq::<FormWidget>::empty(),
{
    if in_bounds {
        collect_widgets(annotations)
    } else {
        Vec::new()
    }
}

/// Keeps the form-field-bearing entries of a page's annotation list,
/// in order, reporting each as [`spec_widget`] says, under its ordinal
/// position in the full list.
pub fn collect_widgets(annotations: &Vec<PageAnnotation>) -> (r: Vec<FormWidget>)
    ensures
        r@.len() == spec_widgets(annotations@).len(),
        forall|k: int| 0 <= k < r@.len() ==> r@[k]@ == spec_widgets(annotations@)[k],
{
    let mut out: Vec<FormWidget> = Vec::new();
    let mut i: usize = 0;
    while i < annotations.len()
        invariant
            i <= annotations.len(),
            out@.len() == spec_widgets(annotations@.take(i as int)).len(),
            forall|k: int|
                0 <= k < out@.len() ==> out@[k]@ == spec_widgets(annotations@.take(i as int))[k],
        decreases annotations.len() - i,
    {
        let a = &annotations[i];
        match &a.form_field {
            None => {},
            Some(f) => {
                let value = match (&f.kind, &f.text_value) {
                    (FieldKind::Text, Some(s)) => s.clone(),
                    _ => String::new(),
                };
                let checked = widget_checked(f);
                out.push(
                    FormWidget {
                        index: i,
                        bounds: a.bounds,
                        field_type: f.kind,
                        value,
                        checked,
                    },
                );
            },
        }
        proof {
            assert(annotations@.take(i + 1 as int).drop_last() =~= annotations@.take(i as int));
            assert(annotations@.take(i + 1 as int).last() == annotations@[i as int]);
        }
        i = i + 1;
    }
    proof {
        assert(annotations@.take(annotations@.len() as int) =~= annotations@);
    }
    out
}

/// An annotation list without form fields yields no widgets.
pub proof fn lemma_no_form_fields(annots: Seq<PageAnnotation>)
    requires
        forall|k: int| 0 <= k < annots.len() ==> annots[k].form_field is None,
    ensures
        spec_widgets(annots) == Seq::<WidgetModel>::empty(),
    decreases annots.len(),
{
    if annots.len() > 0 {
        lemma_no_form_fields(annots.drop_last());
    }
}

/// An annotation list whose only form field sits at position `i`
/// yields exactly one widget: the one for that entry, under index
/// `i`, however many other annotations surround it.
pub proof fn lemma_single_form_field(annots: Seq<PageAnnotation>, i: int)
    requires
        0 <= i < annots.len(),
        annots[i].form_field is Some,
        forall|k: int| 0 <= k < annots.len() && k != i ==> annots[k].form_field is None,
    ensures
        spec_widgets(annots) =~= seq![
            spec_widget(i, annots[i].bounds, annots[i].form_field.unwrap()),
        ],
    decreases annots.len(),
{
    if i == annots.len() - 1 {
        lemma_no_form_fields(annots.drop_last());
    } else {
        lemma_single_form_field(annots.drop_last(), i);
    }
}

/// An annotation list whose only form fields sit at positions `i`
/// and `j` yields exactly those two widgets, in list order, under the
/// indices `i` and `j`, however many other annotations surround them.
pub proof fn lemma_two_form_fields(annots: Seq<PageAnnotation>, i: int, j: int)
    requires
        0 <= i < j < annots.len(),
        annots[i].form_field is Some,
        annots[j].form_field is Some,
        forall|k: int| 0 <= k < annots.len() && k != i && k != j ==> annots[k].form_field is None,
    ensures
        spec_widgets(annots) =~= seq![
            spec_widget(i, annots[i].bounds, annots[i].form_field.unwrap()),
            spec_widget(j, annots[j].bounds, annots[j].form_field.unwrap()),
        ],
    decreases annots.len(),
{
    if j == annots.len() - 1 {
        lemma_single_form_field(annots.drop_last(), i);
    } else {
        lemma_two_form_fields(annots.drop_last(), i, j);
    }
}

/// A page whose form fields are exactly a checked checkbox followed
/// by an unchecked radio button reports exactly two widgets: checked
/// state `true` then `false`, the value empty for both, each under
/// its position in the full annotation list.
pub proof fn lemma_checkbox_and_radio_report(annots: Seq<PageAnnotation>, i: int, j: int)
    requires
        0 <= i < j < annots.len(),
        annots[i].form_field matches Some(f) && f.kind == FieldKind::Checkbox && f.checked
            == Some(true),
        annots[j].form_field matches Some(f) && f.kind == FieldKind::RadioButton && f.checked
            == Some(false),
        forall|k: int| 0 <= k < annots.len() && k != i && k != j ==> annots[k].form_field is None,
    ensures
        spec_widgets(annots).len() == 2,
        spec_widgets(annots)[0].index == i,
        spec_widgets(annots)[0].checked == true,
        spec_widgets(annots)[0].value == Seq::<char>::empty(),
        spec_widgets(annots)[1].index == j,
        spec_widgets(annots)[1].checked == false,
        spec_widgets(annots)[1].value == Seq::<char>::empty(),
{
    lemma_two_form_fields(annots, i, j);
}

} // verus!
