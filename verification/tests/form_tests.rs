use riemann_core::form::{
    collect_widgets, widgets_result, FieldKind, FormFieldData, PageAnnotation,
};
use riemann_core::geometry::Rect;

fn bounds(left: i32, top: i32, right: i32, bottom: i32) -> Rect {
    Rect { left, top, right, bottom }
}

fn plain_annotation() -> PageAnnotation {
    PageAnnotation { bounds: bounds(0, 1, 1, 0), form_field: None }
}

fn field(kind: FieldKind, text_value: Option<&str>, checked: Option<bool>) -> FormFieldData {
    FormFieldData { kind, text_value: text_value.map(String::from), checked }
}

#[test]
fn checkbox_and_radio_report_checked_state() {
    let annotations = vec![
        PageAnnotation {
            bounds: bounds(0, 10, 5, 5),
            form_field: Some(field(FieldKind::Checkbox, None, Some(true))),
        },
        PageAnnotation {
            bounds: bounds(0, 5, 5, 0),
            form_field: Some(field(FieldKind::RadioButton, None, Some(false))),
        },
    ];
    let widgets = collect_widgets(&annotations);
    assert_eq!(widgets.len(), 2);
    assert!(widgets[0].checked);
    assert!(!widgets[1].checked);
    assert_eq!(widgets[0].value, "");
    assert_eq!(widgets[1].value, "");
    assert_eq!(widgets[0].field_type, FieldKind::Checkbox);
    assert_eq!(widgets[1].field_type, FieldKind::RadioButton);
    assert_eq!(widgets[0].bounds, bounds(0, 10, 5, 5));
}

#[test]
fn widget_index_counts_all_annotations() {
    let annotations = vec![
        PageAnnotation {
            bounds: bounds(0, 2, 2, 0),
            form_field: Some(field(FieldKind::Checkbox, None, Some(true))),
        },
        plain_annotation(),
        PageAnnotation {
            bounds: bounds(4, 2, 8, 0),
            form_field: Some(field(FieldKind::Text, Some("name"), None)),
        },
    ];
    let widgets = collect_widgets(&annotations);
    assert_eq!(widgets.len(), 2);
    assert_eq!(widgets[0].index, 0);
    assert_eq!(widgets[1].index, 2);
}

#[test]
fn text_field_reports_its_value() {
    let annotations = vec![PageAnnotation {
        bounds: bounds(0, 2, 8, 0),
        form_field: Some(field(FieldKind::Text, Some("hello"), None)),
    }];
    let widgets = collect_widgets(&annotations);
    assert_eq!(widgets[0].value, "hello");
    assert!(!widgets[0].checked);
}

#[test]
fn unset_text_value_reports_empty_string() {
    let annotations = vec![PageAnnotation {
        bounds: bounds(0, 2, 8, 0),
        form_field: Some(field(FieldKind::Text, None, None)),
    }];
    assert_eq!(collect_widgets(&annotations)[0].value, "");
}

#[test]
fn value_of_non_text_field_is_empty() {
    let annotations = vec![PageAnnotation {
        bounds: bounds(0, 2, 8, 0),
        form_field: Some(field(FieldKind::ComboBox, Some("choice"), Some(true))),
    }];
    let widgets = collect_widgets(&annotations);
    assert_eq!(widgets[0].value, "");
    assert!(!widgets[0].checked);
}

#[test]
fn unreadable_checked_state_defaults_to_false() {
    let annotations = vec![PageAnnotation {
        bounds: bounds(0, 2, 8, 0),
        form_field: Some(field(FieldKind::Checkbox, None, None)),
    }];
    assert!(!collect_widgets(&annotations)[0].checked);
}

#[test]
fn page_without_form_fields_yields_no_widgets() {
    let annotations = vec![plain_annotation(), plain_annotation()];
    assert!(collect_widgets(&annotations).is_empty());
}

#[test]
fn widgets_of_out_of_range_page_are_empty() {
    let annotations = vec![PageAnnotation {
        bounds: bounds(0, 2, 8, 0),
        form_field: Some(field(FieldKind::Checkbox, None, Some(true))),
    }];
    assert!(widgets_result(false, &annotations).is_empty());
    assert_eq!(widgets_result(true, &annotations).len(), 1);
}
