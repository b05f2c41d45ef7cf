use method_export::analyze::{analyze_method, impl_gdnative_expose};
use method_export::assemble::{assemble_method, derive_methods, ArgRole, RegisterStep};
use method_export::ast::{
    AttrArgs, AttrStyle, Attribute, ExportArgs, ExportError, ExportMethod, GenericCounts,
    ImplItem, ItemImpl, LitValue, Method, MetaItem, Param, ParamPat, ReturnKind, Signature,
};
use method_export::rpc::RpcMode;

fn no_generics() -> GenericCounts {
    GenericCounts { type_params: 0, lifetimes: 0, const_params: 0 }
}

fn marker(form: &str, items: Vec<MetaItem>) -> Attribute {
    Attribute {
        style: AttrStyle::Outer,
        path_last: form.to_string(),
        args: AttrArgs::ArgList(items),
    }
}

fn bare_marker(form: &str) -> Attribute {
    Attribute { style: AttrStyle::Outer, path_last: form.to_string(), args: AttrArgs::Bare }
}

fn receiver() -> Param {
    Param::Receiver { marks: vec![] }
}

fn typed(name: &str, marks: Vec<&str>) -> Param {
    Param::Typed {
        marks: marks.into_iter().map(|m| m.to_string()).collect(),
        pat: ParamPat::Named { by_ref: false, mutable: false, ident: name.to_string() },
    }
}

fn method(name: &str, attrs: Vec<Attribute>, inputs: Vec<Param>) -> Method {
    Method {
        attrs,
        sig: Signature {
            ident: name.to_string(),
            is_unsafe: false,
            generics: no_generics(),
            inputs,
            output: ReturnKind::Unit,
        },
    }
}

#[test]
fn unmarked_method_passes_through_unchanged() {
    let plain_attr = Attribute {
        style: AttrStyle::Outer,
        path_last: "inline".to_string(),
        args: AttrArgs::Bare,
    };
    let m = method("quiet", vec![plain_attr], vec![receiver(), typed("x", vec![])]);
    let out = analyze_method(m);
    assert!(out.diags.is_empty());
    assert!(out.export.is_none());
    assert_eq!(out.cleaned.attrs.len(), 1);
    assert_eq!(out.cleaned.attrs[0].path_last, "inline");
    assert_eq!(out.cleaned.sig.ident, "quiet");
    assert_eq!(out.cleaned.sig.inputs.len(), 2);
}

#[test]
fn marked_method_yields_one_descriptor_and_strips_the_marker() {
    let m = method("hit", vec![bare_marker("method")], vec![receiver(), typed("dmg", vec![])]);
    let im = ItemImpl { self_ty: "Player".to_string(), items: vec![ImplItem::MethodItem(m)] };
    let (block, export) = impl_gdnative_expose(im);
    assert_eq!(export.class_ty, "Player");
    assert_eq!(export.methods.len(), 1);
    assert_eq!(export.methods[0].sig.ident, "hit");
    assert!(!export.methods[0].export_args.is_old_syntax);
    assert_eq!(block.items.len(), 1);
    match &block.items[0] {
        ImplItem::MethodItem(cleaned) => assert!(cleaned.attrs.is_empty()),
        other => panic!("expected the cleaned method, got {:?}", other),
    }
}

#[test]
fn descriptors_keep_declaration_order() {
    let first = method("alpha", vec![bare_marker("method")], vec![receiver()]);
    let middle = method("plain", vec![], vec![receiver()]);
    let last = method("omega", vec![bare_marker("method")], vec![receiver()]);
    let im = ItemImpl {
        self_ty: "T".to_string(),
        items: vec![
            ImplItem::MethodItem(first),
            ImplItem::MethodItem(middle),
            ImplItem::MethodItem(last),
        ],
    };
    let (_, export) = impl_gdnative_expose(im);
    assert_eq!(export.methods.len(), 2);
    assert_eq!(export.methods[0].sig.ident, "alpha");
    assert_eq!(export.methods[1].sig.ident, "omega");
}

#[test]
fn unrecognized_rpc_token_fails_with_no_descriptor() {
    let m = method(
        "call",
        vec![marker(
            "method",
            vec![MetaItem::KeyValue(
                "rpc".to_string(),
                LitValue::Str("remote_async".to_string()),
            )],
        )],
        vec![receiver()],
    );
    let out = analyze_method(m);
    assert!(out.export.is_none());
    assert_eq!(out.diags.len(), 1);
    match &out.diags[0] {
        ExportError::RpcUnexpectedValue(v) => assert_eq!(v, "remote_async"),
        other => panic!("expected the rpc token error, got {:?}", other),
    }
}

#[test]
fn rpc_token_reaches_the_descriptor() {
    let m = method(
        "call",
        vec![marker(
            "method",
            vec![MetaItem::KeyValue("rpc".to_string(), LitValue::Str("puppet_sync".to_string()))],
        )],
        vec![receiver()],
    );
    let out = analyze_method(m);
    let em = out.export.expect("a valid rpc token must keep the method exported");
    assert_eq!(em.export_args.rpc_mode, Some(RpcMode::PuppetSync));
}

#[test]
fn rpc_set_twice_is_an_error() {
    let m = method(
        "call",
        vec![marker(
            "method",
            vec![
                MetaItem::KeyValue("rpc".to_string(), LitValue::Str("master".to_string())),
                MetaItem::KeyValue("rpc".to_string(), LitValue::Str("puppet".to_string())),
            ],
        )],
        vec![receiver()],
    );
    let out = analyze_method(m);
    assert!(out.export.is_none());
    assert!(matches!(out.diags[0], ExportError::RpcSetTwice));
}

#[test]
fn non_string_rpc_value_is_an_error() {
    let m = method(
        "call",
        vec![marker(
            "method",
            vec![MetaItem::KeyValue("rpc".to_string(), LitValue::NonStr)],
        )],
        vec![receiver()],
    );
    let out = analyze_method(m);
    assert!(matches!(out.diags[0], ExportError::RpcExpectedString));
}

#[test]
fn name_set_twice_is_an_error() {
    let m = method(
        "call",
        vec![marker(
            "method",
            vec![
                MetaItem::KeyValue("name".to_string(), LitValue::Str("a".to_string())),
                MetaItem::KeyValue("name".to_string(), LitValue::Str("b".to_string())),
            ],
        )],
        vec![receiver()],
    );
    let out = analyze_method(m);
    assert!(matches!(out.diags[0], ExportError::NameSetTwice));
}

#[test]
fn deref_return_takes_no_value_and_only_once() {
    let with_value = method(
        "a",
        vec![marker(
            "method",
            vec![MetaItem::KeyValue("deref_return".to_string(), LitValue::NonStr)],
        )],
        vec![receiver()],
    );
    assert!(matches!(
        analyze_method(with_value).diags[0],
        ExportError::DerefReturnTakesNoValue
    ));
    let twice = method(
        "b",
        vec![marker(
            "method",
            vec![
                MetaItem::Flag("deref_return".to_string()),
                MetaItem::Flag("deref_return".to_string()),
            ],
        )],
        vec![receiver()],
    );
    assert!(matches!(analyze_method(twice).diags[0], ExportError::DerefReturnSetTwice));
}

#[test]
fn unknown_option_and_malformed_items_are_errors() {
    let m = method(
        "a",
        vec![marker(
            "method",
            vec![
                MetaItem::Flag("wrong".to_string()),
                MetaItem::BareLit(LitValue::Str("x".to_string())),
                MetaItem::NestedList,
            ],
        )],
        vec![receiver()],
    );
    let out = analyze_method(m);
    assert!(out.export.is_none());
    assert_eq!(out.diags.len(), 3);
    match &out.diags[0] {
        ExportError::UnknownOption { legacy, option } => {
            assert!(!*legacy);
            assert_eq!(option, "wrong");
        },
        other => panic!("expected the unknown-option error, got {:?}", other),
    }
    assert!(matches!(out.diags[1], ExportError::LiteralItem));
    assert!(matches!(out.diags[2], ExportError::ListItem));
}

#[test]
fn required_after_optional_fails_with_no_descriptor() {
    let m = method(
        "f",
        vec![bare_marker("method")],
        vec![
            receiver(),
            typed("base", vec!["base"]),
            typed("a", vec!["opt"]),
            typed("b", vec![]),
        ],
    );
    let out = analyze_method(m);
    assert!(out.export.is_none());
    assert_eq!(out.diags.len(), 1);
    assert!(matches!(out.diags[0], ExportError::RequiredAfterOptional));
}

#[test]
fn base_away_from_position_one_fails() {
    let m = method(
        "f",
        vec![bare_marker("method")],
        vec![receiver(), typed("a", vec![]), typed("b", vec!["base"])],
    );
    let out = analyze_method(m);
    assert!(out.export.is_none());
    assert_eq!(out.diags.len(), 1);
    assert!(matches!(out.diags[0], ExportError::BaseNotSecond));
}

#[test]
fn optional_receiver_or_base_fails() {
    let m = method(
        "f",
        vec![bare_marker("method")],
        vec![
            Param::Receiver { marks: vec!["opt".to_string()] },
            typed("b", vec!["opt", "base"]),
        ],
    );
    let out = analyze_method(m);
    assert!(out.export.is_none());
    assert_eq!(out.diags.len(), 2);
    assert!(matches!(out.diags[0], ExportError::OptionalSelfOrBase));
    assert!(matches!(out.diags[1], ExportError::OptionalSelfOrBase));
}

#[test]
fn generic_parameters_are_rejected_one_kind_at_a_time() {
    let mut m = method("g", vec![bare_marker("method")], vec![receiver()]);
    m.sig.generics = GenericCounts { type_params: 1, lifetimes: 1, const_params: 1 };
    let out = analyze_method(m);
    assert!(out.export.is_none());
    assert_eq!(out.diags.len(), 1);
    assert!(matches!(out.diags[0], ExportError::TypeParamsNotAllowed));

    let mut m2 = method("h", vec![bare_marker("method")], vec![receiver()]);
    m2.sig.generics = GenericCounts { type_params: 0, lifetimes: 2, const_params: 1 };
    assert!(matches!(analyze_method(m2).diags[0], ExportError::LifetimesNotAllowed));

    let mut m3 = method("k", vec![bare_marker("method")], vec![receiver()]);
    m3.sig.generics = GenericCounts { type_params: 0, lifetimes: 0, const_params: 3 };
    assert!(matches!(analyze_method(m3).diags[0], ExportError::ConstParamsNotAllowed));
}

#[test]
fn wildcards_get_synthetic_names_and_mutability_is_stripped() {
    let m = Method {
        attrs: vec![bare_marker("method")],
        sig: Signature {
            ident: "w".to_string(),
            is_unsafe: true,
            generics: no_generics(),
            inputs: vec![
                receiver(),
                Param::Typed { marks: vec![], pat: ParamPat::Wild },
                Param::Typed {
                    marks: vec![],
                    pat: ParamPat::Named {
                        by_ref: false,
                        mutable: true,
                        ident: "v".to_string(),
                    },
                },
            ],
            output: ReturnKind::Unit,
        },
    };
    let out = analyze_method(m);
    let em = out.export.expect("the method is well-shaped");
    assert!(!em.sig.is_unsafe);
    assert!(matches!(em.sig.inputs[1], Param::Typed { pat: ParamPat::Synthetic { index: 1 }, .. }));
    match &em.sig.inputs[2] {
        Param::Typed { pat: ParamPat::Named { mutable, ident, .. }, .. } => {
            assert!(!*mutable);
            assert_eq!(ident, "v");
        },
        other => panic!("expected a named pattern, got {:?}", other),
    }
    // The cleaned block keeps the original patterns and the unsafe marker.
    match &out.cleaned.sig.inputs[1] {
        Param::Typed { pat: ParamPat::Wild, .. } => {},
        other => panic!("the cleaned block must keep the wildcard, got {:?}", other),
    }
    assert!(out.cleaned.sig.is_unsafe);
}

#[test]
fn name_override_names_the_binding() {
    let m = method(
        "foo",
        vec![marker(
            "method",
            vec![MetaItem::KeyValue("name".to_string(), LitValue::Str("bar".to_string()))],
        )],
        vec![receiver()],
    );
    let im = ItemImpl { self_ty: "T".to_string(), items: vec![ImplItem::MethodItem(m)] };
    let out = derive_methods(im);
    assert_eq!(out.class_ty, "T");
    assert_eq!(out.steps.len(), 1);
    match &out.steps[0] {
        RegisterStep::Binding { name, rpc, .. } => {
            assert_eq!(name, "bar");
            assert_eq!(*rpc, RpcMode::Disabled);
        },
        other => panic!("expected a binding, got {:?}", other),
    }
}

#[test]
fn legacy_marker_without_base_fails_the_assembly() {
    let m = method("foo", vec![bare_marker("export")], vec![receiver()]);
    let im = ItemImpl { self_ty: "T".to_string(), items: vec![ImplItem::MethodItem(m)] };
    let out = derive_methods(im);
    assert_eq!(out.steps.len(), 1);
    assert!(matches!(
        out.steps[0],
        RegisterStep::Failed(ExportError::LegacyMissingBase)
    ));
}

#[test]
fn legacy_marker_with_base_warns_and_binds() {
    let m = method(
        "foo",
        vec![bare_marker("export")],
        vec![receiver(), typed("owner", vec![])],
    );
    let im = ItemImpl { self_ty: "T".to_string(), items: vec![ImplItem::MethodItem(m)] };
    let out = derive_methods(im);
    match &out.steps[0] {
        RegisterStep::Binding { warn_legacy, roles, .. } => {
            assert!(*warn_legacy);
            assert_eq!(roles.as_slice(), &[ArgRole::Required, ArgRole::Base]);
        },
        other => panic!("expected a binding, got {:?}", other),
    }
}

#[test]
fn zero_parameter_method_fails_the_assembly() {
    let em = ExportMethod {
        sig: Signature {
            ident: "f".to_string(),
            is_unsafe: false,
            generics: no_generics(),
            inputs: vec![],
            output: ReturnKind::Unit,
        },
        export_args: ExportArgs {
            is_old_syntax: false,
            rpc_mode: None,
            name_override: None,
            is_deref_return: false,
        },
        optional_args: None,
        exist_base_arg: false,
    };
    assert!(matches!(
        assemble_method(em),
        RegisterStep::Failed(ExportError::MissingSelfParam)
    ));
}

#[test]
fn optional_ceiling_names_the_maximum() {
    let em = ExportMethod {
        sig: Signature {
            ident: "f".to_string(),
            is_unsafe: false,
            generics: no_generics(),
            inputs: vec![
                receiver(),
                typed("owner", vec![]),
                typed("a", vec![]),
                typed("b", vec![]),
                typed("c", vec![]),
                typed("d", vec![]),
            ],
            output: ReturnKind::Unit,
        },
        export_args: ExportArgs {
            is_old_syntax: false,
            rpc_mode: None,
            name_override: None,
            is_deref_return: false,
        },
        optional_args: Some(5),
        exist_base_arg: true,
    };
    match assemble_method(em) {
        RegisterStep::Failed(ExportError::TooManyOptional { max, got }) => {
            assert_eq!(max, 4);
            assert_eq!(got, 5);
        },
        other => panic!("expected the ceiling error, got {:?}", other),
    }
}

#[test]
fn optional_suffix_marks_trailing_roles() {
    let m = method(
        "f",
        vec![bare_marker("method")],
        vec![
            receiver(),
            typed("owner", vec!["base"]),
            typed("a", vec![]),
            typed("b", vec!["opt"]),
            typed("c", vec!["opt"]),
        ],
    );
    let im = ItemImpl { self_ty: "T".to_string(), items: vec![ImplItem::MethodItem(m)] };
    let out = derive_methods(im);
    match &out.steps[0] {
        RegisterStep::Binding { roles, method, .. } => {
            assert_eq!(method.optional_args, Some(2));
            assert_eq!(
                roles.as_slice(),
                &[
                    ArgRole::Required,
                    ArgRole::Base,
                    ArgRole::Required,
                    ArgRole::Optional,
                    ArgRole::Optional,
                ]
            );
        },
        other => panic!("expected a binding, got {:?}", other),
    }
}

#[test]
fn reference_return_warns_unless_acknowledged() {
    let mut m = method("r", vec![bare_marker("method")], vec![receiver()]);
    m.sig.output = ReturnKind::Reference;
    let im = ItemImpl { self_ty: "T".to_string(), items: vec![ImplItem::MethodItem(m)] };
    let out = derive_methods(im);
    match &out.steps[0] {
        RegisterStep::Binding { warn_ref_return, .. } => assert!(*warn_ref_return),
        other => panic!("expected a binding, got {:?}", other),
    }

    let mut m2 = method(
        "r2",
        vec![marker("method", vec![MetaItem::Flag("deref_return".to_string())])],
        vec![receiver()],
    );
    m2.sig.output = ReturnKind::Reference;
    let im2 = ItemImpl { self_ty: "T".to_string(), items: vec![ImplItem::MethodItem(m2)] };
    let out2 = derive_methods(im2);
    match &out2.steps[0] {
        RegisterStep::Binding { warn_ref_return, .. } => assert!(!*warn_ref_return),
        other => panic!("expected a binding, got {:?}", other),
    }
}

#[test]
fn errors_stand_beside_the_failing_method_and_spare_its_siblings() {
    let bad = method(
        "bad",
        vec![bare_marker("method")],
        vec![receiver(), typed("a", vec![]), typed("b", vec!["base"])],
    );
    let good = method("good", vec![bare_marker("method")], vec![receiver()]);
    let im = ItemImpl {
        self_ty: "T".to_string(),
        items: vec![ImplItem::MethodItem(bad), ImplItem::OtherItem, ImplItem::MethodItem(good)],
    };
    let (block, export) = impl_gdnative_expose(im);
    // The failing method contributes its error, then itself, cleaned; the
    // other item and the valid sibling follow untouched.
    assert_eq!(block.items.len(), 4);
    assert!(matches!(block.items[0], ImplItem::ErrorItem(ExportError::BaseNotSecond)));
    assert!(matches!(block.items[1], ImplItem::MethodItem(_)));
    assert!(matches!(block.items[2], ImplItem::OtherItem));
    assert!(matches!(block.items[3], ImplItem::MethodItem(_)));
    assert_eq!(export.methods.len(), 1);
    assert_eq!(export.methods[0].sig.ident, "good");
}

#[test]
fn marker_on_inner_style_is_not_an_export() {
    let inner = Attribute {
        style: AttrStyle::Inner,
        path_last: "method".to_string(),
        args: AttrArgs::Bare,
    };
    let m = method("quiet", vec![inner], vec![receiver()]);
    let out = analyze_method(m);
    assert!(out.export.is_none());
    assert!(out.diags.is_empty());
    assert_eq!(out.cleaned.attrs.len(), 1);
}

#[test]
fn marker_parse_failure_is_reported() {
    let broken = Attribute {
        style: AttrStyle::Outer,
        path_last: "method".to_string(),
        args: AttrArgs::ParseFailed("expected literal".to_string()),
    };
    let m = method("broken", vec![broken], vec![receiver()]);
    let out = analyze_method(m);
    assert!(out.export.is_none());
    match &out.diags[0] {
        ExportError::AttrParseFailed(msg) => assert_eq!(msg, "expected literal"),
        other => panic!("expected the parse failure, got {:?}", other),
    }
}

#[test]
fn name_value_marker_form_is_refused() {
    let nv = Attribute {
        style: AttrStyle::Outer,
        path_last: "method".to_string(),
        args: AttrArgs::NameValueForm,
    };
    let m = method("nv", vec![nv], vec![receiver()]);
    let out = analyze_method(m);
    assert!(out.export.is_none());
    assert!(matches!(out.diags[0], ExportError::NameValueSyntax));
}

#[test]
fn rpc_and_name_require_string_values() {
    let m = method(
        "v",
        vec![marker(
            "method",
            vec![
                MetaItem::Flag("rpc".to_string()),
                MetaItem::Flag("name".to_string()),
                MetaItem::KeyValue("name".to_string(), LitValue::NonStr),
            ],
        )],
        vec![receiver()],
    );
    let out = analyze_method(m);
    assert!(out.export.is_none());
    assert_eq!(out.diags.len(), 3);
    assert!(matches!(out.diags[0], ExportError::RpcRequiresString));
    assert!(matches!(out.diags[1], ExportError::NameRequiresString));
    assert!(matches!(out.diags[2], ExportError::NameExpectedString));
}
