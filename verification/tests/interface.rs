use netx::builder::{
    call_form, check_call, find_route, get_funcs_info, get_function_tt, have_tag, Attribute, BuildError, CallForm,
    DispatchError, FuncInfo, MethodSig, Param, ReturnShape, Route, Segment, SegmentArgs, TagArg, TraitItem, CLOSED,
    CONNECT, DISCONNECT,
};

fn result_of(first_is_unit: bool) -> ReturnShape {
    ReturnShape::Path(vec![Segment { is_result: true, args: SegmentArgs::Angle { count: 1, first_is_unit } }])
}

fn method(name: &str, tag: Option<i32>, params: Vec<Param>, output: ReturnShape) -> TraitItem {
    let attrs = match tag {
        Some(t) => vec![Attribute::NotTag, Attribute::Tag(TagArg::Int(Some(t)))],
        None => vec![Attribute::NotTag],
    };
    TraitItem::Method(MethodSig { name: name.to_string(), attrs, is_async: true, params, output })
}

fn typed(ty: &str, name: &str) -> Param {
    Param::Typed { ty: ty.to_string(), name: Some(name.to_string()) }
}

#[test]
fn tags_from_literals_and_words() {
    assert!(matches!(have_tag(&vec![Attribute::NotTag]), Ok(None)));
    assert!(matches!(have_tag(&vec![Attribute::Tag(TagArg::Int(Some(1000)))]), Ok(Some(1000))));
    assert!(matches!(have_tag(&vec![Attribute::Tag(TagArg::Ident("connect".into()))]), Ok(Some(2147483647))));
    assert!(matches!(have_tag(&vec![Attribute::Tag(TagArg::Ident("disconnect".into()))]), Ok(Some(2147483646))));
    assert!(matches!(have_tag(&vec![Attribute::Tag(TagArg::Ident("closed".into()))]), Ok(Some(2147483645))));
    assert!(matches!(have_tag(&vec![Attribute::Tag(TagArg::Ident("open".into()))]), Err(BuildError::UnknownLifecycle(_))));
    assert!(matches!(have_tag(&vec![Attribute::Tag(TagArg::Int(None))]), Err(BuildError::TagOutOfRange)));
    assert!(matches!(have_tag(&vec![Attribute::TagWithoutList]), Err(BuildError::TagWithoutList)));
    assert!(matches!(have_tag(&vec![Attribute::Tag(TagArg::Other)]), Err(BuildError::BadTagArgument)));
    assert!(matches!(
        have_tag(&vec![Attribute::Tag(TagArg::Int(Some(1))), Attribute::Tag(TagArg::Int(Some(2)))]),
        Ok(Some(1))
    ));
    assert_eq!((CONNECT, DISCONNECT, CLOSED), (i32::MAX, i32::MAX - 1, i32::MAX - 2));
}

#[test]
fn call_types_from_return_types() {
    let name = "f".to_string();
    assert!(matches!(get_function_tt(1, &name, &ReturnShape::Nothing), Ok(0)));
    assert!(matches!(get_function_tt(1, &name, &ReturnShape::Unit), Ok(0)));
    assert!(matches!(get_function_tt(1, &name, &result_of(true)), Ok(1)));
    assert!(matches!(get_function_tt(1, &name, &result_of(false)), Ok(2)));
    let anyhow_result = ReturnShape::Path(vec![
        Segment { is_result: false, args: SegmentArgs::Plain },
        Segment { is_result: true, args: SegmentArgs::Angle { count: 1, first_is_unit: false } },
    ]);
    assert!(matches!(get_function_tt(1, &name, &anyhow_result), Ok(2)));
    assert!(matches!(get_function_tt(1, &name, &ReturnShape::NotPath), Err(BuildError::NonPathReturn { tag: 1, .. })));
    let two = ReturnShape::Path(vec![Segment { is_result: true, args: SegmentArgs::Angle { count: 2, first_is_unit: false } }]);
    assert!(matches!(get_function_tt(1, &name, &two), Ok(2)));
    let two_unit = ReturnShape::Path(vec![Segment { is_result: true, args: SegmentArgs::Angle { count: 2, first_is_unit: true } }]);
    assert!(matches!(get_function_tt(1, &name, &two_unit), Ok(1)));
    let none = ReturnShape::Path(vec![Segment { is_result: true, args: SegmentArgs::Angle { count: 0, first_is_unit: false } }]);
    assert!(matches!(get_function_tt(1, &name, &none), Err(BuildError::ResultArity { .. })));
    let bare = ReturnShape::Path(vec![Segment { is_result: true, args: SegmentArgs::Plain }]);
    assert!(matches!(get_function_tt(1, &name, &bare), Err(BuildError::ResultNotGeneric { .. })));
    let other = ReturnShape::Path(vec![Segment { is_result: false, args: SegmentArgs::Plain }]);
    assert!(matches!(get_function_tt(1, &name, &other), Err(BuildError::NoResult { .. })));
}

#[test]
fn remote_methods_collected_in_order() {
    let items = vec![
        TraitItem::NotMethod,
        method("login", Some(1000), vec![Param::Receiver, typed("String", "name"), typed("u32", "age")], result_of(false)),
        method("helper", None, vec![Param::Receiver], ReturnShape::NotPath),
        method("notify", Some(1002), vec![Param::Receiver, typed("String", "msg")], result_of(true)),
        method("fire", Some(1003), vec![Param::Receiver], ReturnShape::Nothing),
    ];
    let funcs = get_funcs_info(&items).ok().unwrap();
    assert_eq!(funcs.len(), 3);
    assert_eq!((funcs[0].tag, funcs[0].tt, funcs[0].func_name.as_str()), (1000, 2, "login"));
    assert_eq!(funcs[0].args_type, vec!["String".to_string(), "u32".to_string()]);
    assert_eq!(funcs[0].input_names, vec!["name".to_string(), "age".to_string()]);
    assert_eq!((funcs[1].tag, funcs[1].tt), (1002, 1));
    assert_eq!((funcs[2].tag, funcs[2].tt), (1003, 0));
    assert!(funcs[2].args_type.is_empty());
}

#[test]
fn rejected_methods_reject_the_trait() {
    let not_async = TraitItem::Method(MethodSig {
        name: "f".into(),
        attrs: vec![Attribute::Tag(TagArg::Int(Some(5)))],
        is_async: false,
        params: vec![],
        output: ReturnShape::Nothing,
    });
    assert!(matches!(get_funcs_info(&vec![not_async]), Err(BuildError::NotAsync { tag: 5, .. })));
    let pattern = method("g", Some(6), vec![Param::Typed { ty: "(i32, i32)".into(), name: None }], ReturnShape::Nothing);
    assert!(matches!(get_funcs_info(&vec![pattern]), Err(BuildError::ParamNotIdent { .. })));
    let bad_return = method("h", Some(7), vec![], ReturnShape::NotPath);
    assert!(matches!(get_funcs_info(&vec![bad_return]), Err(BuildError::NonPathReturn { tag: 7, .. })));
}

fn info(tag: i32, tt: u8, args: usize) -> FuncInfo {
    FuncInfo {
        tag,
        tt,
        func_name: "m".into(),
        args_type: vec!["i32".to_string(); args],
        input_names: vec!["a".to_string(); args],
    }
}

#[test]
fn routing_of_incoming_calls() {
    let funcs = vec![info(1000, 2, 1), info(2147483647, 1, 0), info(1000, 0, 0)];
    assert!(matches!(find_route(&funcs, 1000), Route::Method(0)));
    assert!(matches!(find_route(&funcs, CONNECT), Route::Method(1)));
    assert!(matches!(find_route(&funcs, DISCONNECT), Route::Lifecycle));
    assert!(matches!(find_route(&funcs, CLOSED), Route::Lifecycle));
    assert!(matches!(find_route(&funcs, 5), Route::NotFound));
}

#[test]
fn calls_checked_against_their_method() {
    let f = info(1000, 2, 2);
    assert!(check_call(f.tag, f.tt, f.args_type.len(), 2, 2).is_ok());
    assert!(matches!(check_call(f.tag, f.tt, f.args_type.len(), 1, 2), Err(DispatchError::WrongCallType { tag: 1000, expected: 2, got: 1 })));
    assert!(matches!(check_call(f.tag, f.tt, f.args_type.len(), 2, 3), Err(DispatchError::WrongArgCount { tag: 1000, expected: 2, got: 3 })));
}

#[test]
fn call_forms_by_call_type() {
    assert!(call_form(0) == CallForm::FireAndForget);
    assert!(call_form(1) == CallForm::Confirm);
    assert!(call_form(2) == CallForm::Value);
}

#[test]
fn first_rejected_method_names_the_error() {
    let items = vec![
        method("ok", Some(1), vec![Param::Receiver], ReturnShape::Nothing),
        method("bad_ret", Some(2), vec![Param::Receiver], ReturnShape::Path(vec![])),
        TraitItem::Method(MethodSig {
            name: "sync".into(),
            attrs: vec![Attribute::Tag(TagArg::Int(Some(3)))],
            is_async: false,
            params: vec![],
            output: ReturnShape::Nothing,
        }),
    ];
    match get_funcs_info(&items) {
        Err(BuildError::NoResult { tag, name }) => assert_eq!((tag, name.as_str()), (2, "bad_ret")),
        _ => panic!("the first rejected method decides the error"),
    }
    let unknown = method("w", None, vec![], ReturnShape::Nothing);
    let unknown = match unknown {
        TraitItem::Method(mut m) => {
            m.attrs = vec![Attribute::Tag(TagArg::Ident("opened".into()))];
            TraitItem::Method(m)
        }
        other => other,
    };
    match get_funcs_info(&vec![unknown]) {
        Err(BuildError::UnknownLifecycle(word)) => assert_eq!(word, "opened"),
        _ => panic!("an unknown lifecycle word is named"),
    }
}
