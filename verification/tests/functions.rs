use filter_engine::context::{CtxTag, CtxValue, FunctionDefinitionContext};
use filter_engine::functions::{
    CompiledSimpleExpr, ExactSizeChain, FunctionArgKind, FunctionArgKindMismatchError,
    FunctionArgInvalidConstantError, FunctionDefinition, FunctionParam, FunctionParamError,
    SimpleFunctionDefinition, SimpleFunctionImpl, SimpleFunctionOptParam, SimpleFunctionParam,
};
use filter_engine::types::{
    CompiledValueResult, ExpectedType, LhsValue, RhsValue, Type,
};

#[test]
fn test_function_definition_context() {
    let ctx1 = FunctionDefinitionContext::new(CtxValue::OptByte(Some(42u8)));

    assert_eq!(
        "FunctionDefinitionContext(Some(42))".to_owned(),
        ctx1.debug_string()
    );

    assert_eq!(ctx1.as_any_ref(), &CtxValue::OptByte(Some(42u8)));

    let ctx2 = ctx1.clone();

    assert_eq!(
        "FunctionDefinitionContext(Some(42))".to_owned(),
        ctx2.debug_string()
    );

    let value = ctx1.downcast(CtxTag::OptByte).unwrap();

    assert_eq!(value, CtxValue::OptByte(Some(42u8)));

    assert_eq!(ctx2.as_any_ref(), &value);

    assert_eq!(ctx2.try_unwrap(CtxTag::OptByte).unwrap(), CtxValue::OptByte(Some(42u8)));
}

#[test]
fn context_downcast_mismatch_returns_context() {
    let ctx = FunctionDefinitionContext::new(CtxValue::Uint(7));
    let back = ctx.downcast(CtxTag::Flag).unwrap_err();
    assert_eq!(back.as_any_ref(), &CtxValue::Uint(7));
    assert_eq!(back.debug_string(), "FunctionDefinitionContext(7)".to_owned());
}

#[test]
fn context_debug_strings() {
    assert_eq!(
        FunctionDefinitionContext::new(CtxValue::OptByte(None)).debug_string(),
        "FunctionDefinitionContext(None)".to_owned()
    );
    assert_eq!(
        FunctionDefinitionContext::new(CtxValue::Uint(18446744073709551615)).debug_string(),
        "FunctionDefinitionContext(18446744073709551615)".to_owned()
    );
    assert_eq!(
        FunctionDefinitionContext::new(CtxValue::Flag(true)).debug_string(),
        "FunctionDefinitionContext(true)".to_owned()
    );
}

#[test]
fn exact_size_chain_draws_in_order() {
    let mut chain = ExactSizeChain::new(vec![1u64, 2], vec![3u64]);
    assert_eq!(chain.len(), 3);
    assert_eq!(chain.next(), Some(1));
    assert_eq!(chain.len(), 2);
    assert_eq!(chain.next(), Some(2));
    assert_eq!(chain.next(), Some(3));
    assert_eq!(chain.len(), 0);
    assert_eq!(chain.next(), None);
}

#[test]
fn param_accessors_and_kinds() {
    let value = RhsValue::Ulong(7);
    let constant = FunctionParam::Constant(&value);
    let variable = FunctionParam::Variable(Type::Bytes);

    assert_eq!(constant.get_type(), Type::Ulong);
    assert_eq!(variable.get_type(), Type::Bytes);
    assert_eq!(constant.as_constant(), Ok(&RhsValue::Ulong(7)));
    assert_eq!(
        variable.as_constant(),
        Err(FunctionArgKindMismatchError {
            expected: FunctionArgKind::Literal,
            actual: FunctionArgKind::Field,
        })
    );
    assert_eq!(variable.as_variable(), Ok(&Type::Bytes));
    assert_eq!(
        constant.as_variable(),
        Err(FunctionArgKindMismatchError {
            expected: FunctionArgKind::Field,
            actual: FunctionArgKind::Literal,
        })
    );
    assert_eq!(constant.expect_arg_kind(FunctionArgKind::Literal), Ok(()));
    assert_eq!(
        constant.expect_arg_kind(FunctionArgKind::Field),
        Err(FunctionParamError::KindMismatch(FunctionArgKindMismatchError {
            expected: FunctionArgKind::Field,
            actual: FunctionArgKind::Literal,
        }))
    );
}

#[test]
fn expect_val_type_lists_tried_types_in_order() {
    let param = FunctionParam::Variable(Type::Int);
    let tried = vec![
        ExpectedType::Type(Type::Bytes),
        ExpectedType::Type(Type::Bytes),
        ExpectedType::Array,
    ];
    let err = param.expect_val_type(&tried).unwrap_err();
    match err {
        FunctionParamError::TypeMismatch(t) => {
            assert_eq!(t.actual, Type::Int);
            assert_eq!(t.expected.len(), 2);
            assert_eq!(*t.expected.get(0), ExpectedType::Type(Type::Bytes));
            assert_eq!(*t.expected.get(1), ExpectedType::Array);
        }
        other => panic!("expected a type mismatch, got {other:?}"),
    }

    let array_param = FunctionParam::Variable(Type::Array(
        filter_engine::types::ScalarType::Bytes,
    ));
    assert_eq!(array_param.expect_val_type(&vec![ExpectedType::Array]), Ok(()));
    assert_eq!(
        FunctionParam::Variable(Type::Ulong).expect_val_type(&vec![ExpectedType::Type(
            Type::Ulong
        )]),
        Ok(())
    );
}

#[test]
fn expect_const_value_validates_constants() {
    let value = RhsValue::Ulong(200);
    let param = FunctionParam::Constant(&value);

    let small = |v: &RhsValue| -> Result<(), String> {
        match v {
            RhsValue::Ulong(n) if *n < 100 => Ok(()),
            _ => Err("too large".to_owned()),
        }
    };
    let err = param.expect_const_value(Type::Ulong, small).unwrap_err();
    match err {
        FunctionParamError::InvalidConstant(e) => {
            assert_eq!(e, FunctionArgInvalidConstantError::new("too large".to_owned()));
        }
        other => panic!("expected an invalid constant, got {other:?}"),
    }

    let any = |_: &RhsValue| -> Result<(), String> { Ok(()) };
    assert_eq!(param.expect_const_value(Type::Ulong, any), Ok(()));

    let err = param.expect_const_value(Type::Bytes, any).unwrap_err();
    match err {
        FunctionParamError::TypeMismatch(t) => {
            assert_eq!(t.actual, Type::Ulong);
            assert_eq!(*t.expected.get(0), ExpectedType::Type(Type::Bytes));
        }
        other => panic!("expected a type mismatch, got {other:?}"),
    }

    let field = FunctionParam::Variable(Type::Ulong);
    assert!(matches!(
        field.expect_const_value(Type::Ulong, any),
        Err(FunctionParamError::KindMismatch(_))
    ));
}

fn first_value(mut args: ExactSizeChain<CompiledValueResult>) -> Option<LhsValue> {
    assert_eq!(args.len(), 1);
    match args.next() {
        Some(Ok(v)) => Some(v),
        _ => None,
    }
}

type Body = fn(ExactSizeChain<CompiledValueResult>) -> Option<LhsValue>;

#[test]
fn simple_function_splices_defaults_at_compile_time() {
    let def = SimpleFunctionDefinition {
        params: vec![],
        opt_params: vec![SimpleFunctionOptParam {
            arg_kind: FunctionArgKind::Literal,
            default_value: LhsValue::Ulong(10),
        }],
        return_type: Type::Ulong,
        implementation: SimpleFunctionImpl::new(first_value as Body),
    };

    let checked: Vec<FunctionParam> = vec![];
    let compiled: CompiledSimpleExpr<Body> = def.compile(&checked, None);
    assert_eq!(compiled.params_count, 0);
    assert_eq!(compiled.call(vec![]), Some(LhsValue::Ulong(10)));
}

#[test]
fn simple_function_checks_slots_in_order() {
    let def = SimpleFunctionDefinition {
        params: vec![SimpleFunctionParam { arg_kind: FunctionArgKind::Field, val_type: Type::Bytes }],
        opt_params: vec![SimpleFunctionOptParam {
            arg_kind: FunctionArgKind::Literal,
            default_value: LhsValue::Ulong(10),
        }],
        return_type: Type::Bytes,
        implementation: SimpleFunctionImpl::new(first_value as Body),
    };

    assert_eq!(def.arg_count(), (1, Some(1)));

    let mut ctx = None;
    let empty: Vec<FunctionParam> = vec![];
    assert_eq!(
        def.check_param(&empty, &FunctionParam::Variable(Type::Bytes), &mut ctx),
        Ok(())
    );
    assert!(matches!(
        def.check_param(&empty, &FunctionParam::Variable(Type::Int), &mut ctx),
        Err(FunctionParamError::TypeMismatch(_))
    ));
    let literal = RhsValue::Bytes(b"x".to_vec());
    assert!(matches!(
        def.check_param(&empty, &FunctionParam::Constant(&literal), &mut ctx),
        Err(FunctionParamError::KindMismatch(_))
    ));

    let accepted = vec![FunctionParam::Variable(Type::Bytes)];
    let wrong_opt = RhsValue::Int(3);
    assert!(matches!(
        def.check_param(&accepted, &FunctionParam::Constant(&wrong_opt), &mut ctx),
        Err(FunctionParamError::TypeMismatch(_))
    ));
    let good_opt = RhsValue::Ulong(3);
    assert_eq!(
        def.check_param(&accepted, &FunctionParam::Constant(&good_opt), &mut ctx),
        Ok(())
    );
    assert_eq!(def.return_type(&accepted, &ctx), Type::Bytes);
    assert_eq!(def.context(), None);
}

#[test]
fn compiled_call_passes_explicit_arguments_through() {
    let def = SimpleFunctionDefinition {
        params: vec![SimpleFunctionParam {
            arg_kind: FunctionArgKind::Field,
            val_type: Type::Ulong,
        }],
        opt_params: vec![],
        return_type: Type::Ulong,
        implementation: SimpleFunctionImpl::new(first_value as Body),
    };
    let checked = vec![FunctionParam::Variable(Type::Ulong)];
    let compiled = def.compile(&checked, None);
    assert_eq!(compiled.params_count, 1);
    assert_eq!(
        compiled.call(vec![Ok(LhsValue::Ulong(99))]),
        Some(LhsValue::Ulong(99))
    );
    assert_eq!(compiled.call(vec![Err(Type::Ulong)]), None);
}
