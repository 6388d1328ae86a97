use solanum::template::{
    gen_template_child_bindings, impl_composite_template, parse_attribute,
    parse_template_child_attribute, parse_template_child_attributes, AttrMeta, AttributeModel,
    CompositeTemplateError, DeriveData, FieldModel, NestedItem, TemplateAttrError,
    TemplateChildAttribute, TemplateChildBinding,
};

fn name_value(name: &str, value: &str) -> NestedItem {
    NestedItem::NameValue { ident: Some(name.to_string()), str_value: Some(value.to_string()) }
}

fn attr(name: &str, meta: Result<AttrMeta, String>) -> AttributeModel {
    AttributeModel { ident: Some(name.to_string()), meta }
}

fn child(id: &str) -> AttributeModel {
    attr("template_child", Ok(AttrMeta::List(vec![name_value("id", id)])))
}

#[test]
fn parse_attribute_reads_name_value() {
    assert_eq!(parse_attribute(&name_value("id", "label")), Ok(("id".to_string(), "label".to_string())));
    assert_eq!(parse_attribute(&NestedItem::Literal), Err(TemplateAttrError::NotNestedMeta));
    assert_eq!(parse_attribute(&NestedItem::Path), Err(TemplateAttrError::NotNameValue));
    assert_eq!(parse_attribute(&NestedItem::List), Err(TemplateAttrError::NotNameValue));
    assert_eq!(
        parse_attribute(&NestedItem::NameValue { ident: Some("id".to_string()), str_value: None }),
        Err(TemplateAttrError::NotStringLiteral)
    );
    assert_eq!(
        parse_attribute(&NestedItem::NameValue { ident: None, str_value: Some("x".to_string()) }),
        Err(TemplateAttrError::MissingIdent)
    );
}

#[test]
fn only_id_is_understood() {
    assert_eq!(
        parse_template_child_attribute(&name_value("id", "button")),
        Ok(TemplateChildAttribute::Id("button".to_string()))
    );
    let err = parse_template_child_attribute(&name_value("name", "button")).unwrap_err();
    assert_eq!(err, TemplateAttrError::UnknownItemMeta("name".to_string()));
    assert_eq!(err.message(), "Unknown item meta name");
}

#[test]
fn attributes_of_first_match() {
    let attrs = vec![
        attr("doc", Ok(AttrMeta::NameValue)),
        attr("template_child", Ok(AttrMeta::List(vec![name_value("id", "a"), name_value("id", "b")]))),
        child("c"),
    ];
    assert_eq!(
        parse_template_child_attributes("template_child", &attrs),
        Ok(vec![TemplateChildAttribute::Id("a".to_string()), TemplateChildAttribute::Id("b".to_string())])
    );
    assert_eq!(parse_template_child_attributes("other", &attrs), Ok(vec![]));
}

#[test]
fn attribute_errors() {
    let attrs = vec![attr("template_child", Ok(AttrMeta::Path))];
    let err = parse_template_child_attributes("template_child", &attrs).unwrap_err();
    assert_eq!(err, TemplateAttrError::NotAList);
    assert_eq!(err.message(), "wrong meta type");

    let attrs = vec![attr("template_child", Err("expected `,`".to_string()))];
    assert_eq!(
        parse_template_child_attributes("template_child", &attrs),
        Err(TemplateAttrError::Parse("expected `,`".to_string()))
    );

    let attrs = vec![attr(
        "template_child",
        Ok(AttrMeta::List(vec![name_value("id", "a"), NestedItem::Literal, name_value("x", "y")])),
    )];
    assert_eq!(
        parse_template_child_attributes("template_child", &attrs),
        Err(TemplateAttrError::NotNestedMeta)
    );
}

#[test]
fn error_messages() {
    assert_eq!(TemplateAttrError::NotNestedMeta.message(), "wrong meta type: not a NestedMeta::Meta");
    assert_eq!(TemplateAttrError::NotNameValue.message(), "wrong meta type: not a Meta::NameValue");
    assert_eq!(TemplateAttrError::NotStringLiteral.message(), "wrong meta type: not a Lit::Str");
    assert_eq!(TemplateAttrError::MissingIdent.message(), "missing ident");
    assert_eq!(TemplateAttrError::Parse("boom".to_string()).message(), "boom");
    assert_eq!(
        CompositeTemplateError::NotAStruct.message(),
        "derive(CompositeTemplate) only supports structs"
    );
}

#[test]
fn bindings_of_marked_fields() {
    let fields = vec![
        FieldModel { ident: Some("count".to_string()), attrs: vec![] },
        FieldModel { ident: Some("label".to_string()), attrs: vec![child("lap_label")] },
        FieldModel {
            ident: Some("button".to_string()),
            attrs: vec![attr(
                "template_child",
                Ok(AttrMeta::List(vec![name_value("id", "first"), name_value("id", "second")])),
            )],
        },
        FieldModel {
            ident: Some("broken".to_string()),
            attrs: vec![attr("template_child", Ok(AttrMeta::List(vec![name_value("name", "x")])))],
        },
        FieldModel { ident: Some("bare".to_string()), attrs: vec![attr("template_child", Ok(AttrMeta::Path))] },
    ];
    let expected = vec![
        TemplateChildBinding { field: "label".to_string(), id: "lap_label".to_string() },
        TemplateChildBinding { field: "button".to_string(), id: "second".to_string() },
        TemplateChildBinding { field: "broken".to_string(), id: String::new() },
        TemplateChildBinding { field: "bare".to_string(), id: String::new() },
    ];
    assert_eq!(gen_template_child_bindings(&fields), expected);
    assert_eq!(impl_composite_template(&DeriveData::Struct(fields)), Ok(expected));
}

#[test]
fn composite_template_needs_a_struct() {
    assert_eq!(impl_composite_template(&DeriveData::Enum), Err(CompositeTemplateError::NotAStruct));
    assert_eq!(impl_composite_template(&DeriveData::Union), Err(CompositeTemplateError::NotAStruct));
}
