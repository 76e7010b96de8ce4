use builder::{
    impl_struct_builder, struct_builder, Assign, Body, BuilderCode, BuilderState, Directive,
    DirectiveItem, Error, Expansion, FieldMetadata, FieldPlan, GenericArg, GenericParam,
    MissingField, ParamKind, RecordDef, Setter, Shape, TypeExpr, Unsupported, Value,
};

fn ty(name: &str) -> TypeExpr {
    TypeExpr::Path { prefix: String::new(), name: name.to_string(), args: Vec::new() }
}

fn wrap(name: &str, inner: &str) -> TypeExpr {
    TypeExpr::Path {
        prefix: String::new(),
        name: name.to_string(),
        args: vec![GenericArg::Type(ty(inner))],
    }
}

fn rename(value: &str) -> Directive {
    Directive {
        name: "builder".to_string(),
        items: Some(vec![DirectiveItem::Text { key: "each".to_string(), value: value.to_string() }]),
    }
}

fn member(ident: &str, ty: TypeExpr, attrs: Vec<Directive>) -> FieldMetadata {
    FieldMetadata { attrs, ident: ident.to_string(), ty }
}

fn record(name: &str, fields: Vec<FieldMetadata>) -> RecordDef {
    RecordDef {
        ident: name.to_string(),
        params: Vec::new(),
        where_clause: None,
        body: Body::Named(fields),
    }
}

fn command() -> RecordDef {
    record(
        "Command",
        vec![
            member("executable", ty("String"), vec![]),
            member("args", wrap("Vec", "String"), vec![rename("arg")]),
            member("env", wrap("Option", "String"), vec![]),
        ],
    )
}

fn one(text: &str) -> Value<String> {
    Value::One(text.to_string())
}

fn many(items: &[&str]) -> Value<String> {
    Value::Many(items.iter().map(|s| s.to_string()).collect())
}

fn missing(field: &str) -> MissingField {
    MissingField { field: field.to_string() }
}

#[test]
fn command_plan_is_as_specified() {
    let code = struct_builder(&command()).unwrap();
    let expected = BuilderCode {
        target: "Command".to_string(),
        builder: "CommandBuilder".to_string(),
        params: vec![],
        args: vec![],
        where_clause: None,
        fields: vec![
            FieldPlan {
                name: "executable".to_string(),
                ty: ty("String"),
                shape: Shape::Plain,
                setter: Setter {
                    name: "executable".to_string(),
                    field: "executable".to_string(),
                    value_type: ty("String"),
                    assign: Assign::Replace,
                },
            },
            FieldPlan {
                name: "args".to_string(),
                ty: wrap("Vec", "String"),
                shape: Shape::Repeated,
                setter: Setter {
                    name: "arg".to_string(),
                    field: "args".to_string(),
                    value_type: ty("String"),
                    assign: Assign::Push,
                },
            },
            FieldPlan {
                name: "env".to_string(),
                ty: wrap("Option", "String"),
                shape: Shape::Optional,
                setter: Setter {
                    name: "env".to_string(),
                    field: "env".to_string(),
                    value_type: ty("String"),
                    assign: Assign::WrapSome,
                },
            },
        ],
    };
    assert_eq!(code, expected);
}

#[test]
fn command_is_built_from_chained_calls() {
    let code = struct_builder(&command()).unwrap();
    let mut builder = BuilderState::new(&code);
    builder.call("executable", one("ls")).call("arg", one("-l")).call("arg", one("-a"));
    assert_eq!(builder.build(), Ok(vec![one("ls"), many(&["-l", "-a"]), Value::Maybe(None)]));
}

#[test]
fn command_without_executable_is_refused() {
    let code = struct_builder(&command()).unwrap();
    let mut builder = BuilderState::new(&code);
    let result = builder.call("arg", one("-l")).build();
    assert_eq!(result, Err(missing("executable")));
    assert_eq!(missing("executable").message(), "`executable` is required");
}

#[test]
fn plain_record_round_trips() {
    let def = record(
        "Point",
        vec![member("x", ty("i32"), vec![]), member("y", ty("i32"), vec![]), member("label", ty("String"), vec![])],
    );
    let code = struct_builder(&def).unwrap();
    let mut builder = BuilderState::new(&code);
    builder.apply(0, one("1")).apply(1, one("2")).apply(2, one("origin"));
    assert_eq!(builder.build(), Ok(vec![one("1"), one("2"), one("origin")]));
}

#[test]
fn later_call_of_a_setter_replaces_the_earlier() {
    let def = record("Point", vec![member("x", ty("i32"), vec![])]);
    let code = struct_builder(&def).unwrap();
    let mut builder = BuilderState::new(&code);
    builder.call("x", one("1")).call("x", one("2"));
    assert_eq!(builder.build(), Ok(vec![one("2")]));
}

#[test]
fn repeated_field_without_a_name_holds_the_collection_set() {
    let def = record("Job", vec![member("args", wrap("Vec", "String"), vec![])]);
    let code = struct_builder(&def).unwrap();
    let mut builder = BuilderState::new(&code);
    builder.call("args", many(&["a", "b"]));
    assert_eq!(builder.value(0), Some(&many(&["a", "b"])));
    assert_eq!(builder.build(), Ok(vec![many(&["a", "b"])]));

    let mut untouched: BuilderState<String> = BuilderState::new(&code);
    assert_eq!(untouched.build(), Ok(vec![many(&[])]));
}

#[test]
fn accumulator_collects_in_call_order() {
    let def = record(
        "Job",
        vec![member("args", wrap("Vec", "String"), vec![rename("arg")]), member("n", ty("u8"), vec![])],
    );
    let code = struct_builder(&def).unwrap();
    let mut builder = BuilderState::new(&code);
    builder.call("arg", one("1")).call("n", one("9")).call("arg", one("2")).call("arg", one("3"));
    assert_eq!(builder.build(), Ok(vec![many(&["1", "2", "3"]), one("9")]));

    let mut none = BuilderState::new(&code);
    none.call("n", one("9"));
    assert_eq!(none.build(), Ok(vec![many(&[]), one("9")]));
}

#[test]
fn renamed_field_has_no_setter_of_its_own_name() {
    let code = struct_builder(&command()).unwrap();
    let mut builder: BuilderState<String> = BuilderState::new(&code);
    assert_eq!(builder.setter("arg"), Some(1));
    assert_eq!(builder.setter("args"), None);
    builder.call("args", many(&["x"]));
    assert_eq!(builder.value(1), Some(&many(&[])));
}

#[test]
fn optional_field_is_present_when_set_and_absent_otherwise() {
    let def = record("Env", vec![member("env", wrap("Option", "String"), vec![])]);
    let code = struct_builder(&def).unwrap();
    let mut builder = BuilderState::new(&code);
    builder.call("env", one("PATH"));
    assert_eq!(builder.build(), Ok(vec![Value::Maybe(Some("PATH".to_string()))]));

    let mut unset: BuilderState<String> = BuilderState::new(&code);
    assert_eq!(unset.build(), Ok(vec![Value::Maybe(None)]));
}

#[test]
fn first_missing_field_in_source_order_is_named() {
    let def = record(
        "Three",
        vec![
            member("a", ty("u8"), vec![]),
            member("b", ty("u8"), vec![]),
            member("c", ty("u8"), vec![]),
        ],
    );
    let code = struct_builder(&def).unwrap();
    let mut builder = BuilderState::new(&code);
    builder.call("a", one("1"));
    assert_eq!(builder.build(), Err(missing("b")));

    let mut other = BuilderState::new(&code);
    other.call("c", one("3"));
    assert_eq!(other.build(), Err(missing("a")));
}

#[test]
fn factory_fills_the_slots_by_shape() {
    let code = struct_builder(&command()).unwrap();
    let builder: BuilderState<String> = BuilderState::new(&code);
    assert_eq!(builder.len(), 3);
    assert_eq!(builder.value(0), None);
    assert_eq!(builder.value(1), Some(&many(&[])));
    assert_eq!(builder.value(2), Some(&Value::Maybe(None)));
    assert_eq!(builder.value(3), None);
}

#[test]
fn build_spends_the_slots() {
    let code = struct_builder(&command()).unwrap();
    let mut builder = BuilderState::new(&code);
    builder.call("executable", one("ls"));
    assert!(builder.build().is_ok());
    assert_eq!(builder.value(1), None);
    assert_eq!(builder.build(), Err(missing("executable")));
}

#[test]
fn build_may_be_tried_again_after_the_first_field_was_missing() {
    let code = struct_builder(&command()).unwrap();
    let mut builder = BuilderState::new(&code);
    builder.call("arg", one("-l"));
    assert_eq!(builder.build(), Err(missing("executable")));
    builder.call("executable", one("ls"));
    assert_eq!(builder.build(), Ok(vec![one("ls"), many(&["-l"]), Value::Maybe(None)]));
}

#[test]
fn a_failed_build_takes_nothing() {
    let def = record("Two", vec![member("a", ty("u8"), vec![]), member("b", ty("u8"), vec![])]);
    let code = struct_builder(&def).unwrap();
    let mut builder = BuilderState::new(&code);
    builder.call("a", one("1"));
    assert_eq!(builder.build(), Err(missing("b")));
    assert_eq!(builder.value(0), Some(&one("1")));
    builder.call("b", one("2"));
    assert_eq!(builder.build(), Ok(vec![one("1"), one("2")]));
}

#[test]
fn a_failed_build_keeps_the_fields_before_the_missing_one() {
    let def = record(
        "Job",
        vec![
            member("args", wrap("Vec", "String"), vec![rename("arg")]),
            member("env", wrap("Option", "String"), vec![]),
            member("first", ty("String"), vec![]),
            member("name", ty("String"), vec![]),
            member("tags", wrap("Vec", "String"), vec![]),
        ],
    );
    let code = struct_builder(&def).unwrap();
    let mut builder = BuilderState::new(&code);
    builder.call("arg", one("x")).call("first", one("f")).call("tags", many(&["t"]));
    assert_eq!(builder.build(), Err(missing("name")));
    assert_eq!(builder.build(), Err(missing("name")));
    builder.call("arg", one("y")).call("name", one("n"));
    assert_eq!(
        builder.build(),
        Ok(vec![many(&["x", "y"]), Value::Maybe(None), one("f"), one("n"), many(&["t"])])
    );
    assert_eq!(builder.build(), Err(missing("args")));
}

#[test]
fn build_succeeds_once_every_plain_field_is_set() {
    let code = struct_builder(&command()).unwrap();
    let mut builder = BuilderState::new(&code);
    builder.call("executable", one("a")).call("executable", one("b"));
    assert_eq!(builder.build(), Ok(vec![one("b"), many(&[]), Value::Maybe(None)]));
}

#[test]
fn plain_record_round_trips_in_any_order_of_calls() {
    let def = record(
        "Point",
        vec![member("x", ty("i32"), vec![]), member("y", ty("i32"), vec![])],
    );
    let code = struct_builder(&def).unwrap();
    let mut builder = BuilderState::new(&code);
    builder.call("y", one("0")).call("x", one("1")).call("y", one("2"));
    assert_eq!(builder.build(), Ok(vec![one("1"), one("2")]));
}

#[test]
fn calls_that_a_setter_does_not_take_change_nothing() {
    let code = struct_builder(&command()).unwrap();
    let mut builder = BuilderState::new(&code);
    assert!(builder.accepts(0, &one("ls")));
    assert!(!builder.accepts(0, &many(&["ls"])));
    assert!(!builder.accepts(1, &many(&["x"])));
    assert!(!builder.accepts(2, &Value::Maybe(None)));
    assert!(!builder.accepts(3, &one("x")));
    builder
        .call("executable", many(&["ls"]))
        .call("arg", many(&["x"]))
        .call("env", Value::Maybe(None))
        .call("nothing", one("x"))
        .apply(7, one("x"));
    assert_eq!(builder.value(0), None);
    assert_eq!(builder.value(1), Some(&many(&[])));
    assert_eq!(builder.value(2), Some(&Value::Maybe(None)));
}

#[test]
fn values_know_their_shape() {
    assert_eq!(one("x").shape(), Shape::Plain);
    assert_eq!(Value::<String>::Maybe(None).shape(), Shape::Optional);
    assert_eq!(many(&[]).shape(), Shape::Repeated);
}

#[test]
fn generics_and_where_clause_are_carried_over() {
    let params = vec![
        GenericParam { kind: ParamKind::Type, ident: "T".to_string(), decl: "T: Clone".to_string() },
        GenericParam {
            kind: ParamKind::Const,
            ident: "N".to_string(),
            decl: "const N: usize".to_string(),
        },
    ];
    let def = RecordDef {
        ident: "Grid".to_string(),
        params,
        where_clause: Some("where T: Default".to_string()),
        body: Body::Named(vec![member("cells", wrap("Vec", "T"), vec![])]),
    };
    let code = struct_builder(&def).unwrap();
    assert_eq!(code.target, "Grid");
    assert_eq!(code.builder, "GridBuilder");
    assert_eq!(code.params, def.params);
    assert_eq!(code.args, vec!["T".to_string(), "N".to_string()]);
    assert_eq!(code.where_clause, Some("where T: Default".to_string()));
}

#[test]
fn lifetime_parameter_is_refused() {
    let mut def = command();
    def.params = vec![
        GenericParam { kind: ParamKind::Type, ident: "T".to_string(), decl: "T".to_string() },
        GenericParam { kind: ParamKind::Lifetime, ident: "'a".to_string(), decl: "'a".to_string() },
    ];
    let error = struct_builder(&def).unwrap_err();
    assert_eq!(error, Error::UnsupportedShape { reason: Unsupported::Lifetime });
    assert_eq!(error.message(), "lifetime parameters are not supported");
}

#[test]
fn definitions_without_named_fields_are_refused() {
    let mut def = command();
    def.body = Body::Unnamed;
    let error = struct_builder(&def).unwrap_err();
    assert_eq!(error, Error::UnsupportedShape { reason: Unsupported::UnnamedFields });
    assert_eq!(error.message(), "Only support named property");

    def.body = Body::NotStruct;
    let error = struct_builder(&def).unwrap_err();
    assert_eq!(error, Error::UnsupportedShape { reason: Unsupported::NotStruct });
    assert_eq!(error.message(), "support struct only");
}

#[test]
fn shape_is_checked_before_directives() {
    let broken = Directive { name: "builder".to_string(), items: None };
    let mut def = record("R", vec![member("a", ty("u8"), vec![broken])]);
    def.params =
        vec![GenericParam { kind: ParamKind::Lifetime, ident: "'a".to_string(), decl: "'a".to_string() }];
    assert_eq!(
        struct_builder(&def),
        Err(Error::UnsupportedShape { reason: Unsupported::Lifetime })
    );
}

#[test]
fn malformed_directive_fails_generation() {
    let unknown = Directive {
        name: "builder".to_string(),
        items: Some(vec![DirectiveItem::Text { key: "eac".to_string(), value: "arg".to_string() }]),
    };
    let def = record(
        "Command",
        vec![
            member("executable", ty("String"), vec![]),
            member("args", wrap("Vec", "String"), vec![unknown]),
            member("env", wrap("Vec", "String"), vec![rename("not an identifier")]),
        ],
    );
    let error = struct_builder(&def).unwrap_err();
    assert_eq!(error, Error::DirectiveSyntax { field: "args".to_string(), attr: 0 });
    assert_eq!(error.message(), "expected `builder(each = \"...\")`");
}

#[test]
fn expansion_is_the_plan_or_a_compile_error() {
    match impl_struct_builder(&command()) {
        Expansion::Declarations(code) => assert_eq!(code, struct_builder(&command()).unwrap()),
        other => panic!("expected declarations, got {:?}", other),
    }
    let broken = Directive { name: "builder".to_string(), items: None };
    let def = record("R", vec![member("a", wrap("Vec", "u8"), vec![broken])]);
    assert_eq!(
        impl_struct_builder(&def),
        Expansion::CompileError {
            error: Error::DirectiveSyntax { field: "a".to_string(), attr: 0 },
            message: "expected `builder(each = \"...\")`".to_string(),
        }
    );
}

#[test]
fn record_without_fields_builds_at_once() {
    let code = struct_builder(&record("Empty", vec![])).unwrap();
    let mut builder: BuilderState<String> = BuilderState::new(&code);
    assert_eq!(builder.len(), 0);
    assert_eq!(builder.build(), Ok(vec![]));
}
