use component_core::component::{
    validate_component_fn_signature, ComponentBody, SignatureErrorKind,
};
use component_core::signature::{
    ComponentSignature, GenericParam, GenericParamKind, Generics, ParamPattern, Parameter,
    ReturnType, Span, Visibility,
};

fn valid() -> ComponentSignature {
    ComponentSignature {
        attrs: Vec::new(),
        vis: Visibility::Public,
        constness: None,
        asyncness: None,
        unsafety: false,
        abi: None,
        ident: "App".to_string(),
        generics: Generics {
            params: vec![GenericParam {
                kind: GenericParamKind::Type,
                name: "T".to_string(),
                declaration: "T".to_string(),
            }],
            where_clause: None,
            span: Span { start: 10, end: 13 },
        },
        inputs: vec![Parameter::Typed {
            attrs: Vec::new(),
            pat: ParamPattern::Ident { by_ref: false, mutable: false, name: "value".to_string() },
            ty: "T".to_string(),
        }],
        variadic: None,
        inputs_span: Span { start: 14, end: 22 },
        output: ReturnType::Type("Element".to_string()),
        output_span: Span { start: 24, end: 34 },
        block: "{ None }".to_string(),
    }
}

fn lifetime() -> GenericParam {
    GenericParam {
        kind: GenericParamKind::Lifetime,
        name: "'a".to_string(),
        declaration: "'a".to_string(),
    }
}

#[test]
fn valid_signature_passes() {
    assert!(validate_component_fn_signature(&valid()).is_ok());
    assert!(ComponentBody::parse(valid()).is_ok());
}

#[test]
fn missing_return_type_is_refused() {
    let mut sig = valid();
    sig.output = ReturnType::Default;
    sig.output_span = Span { start: 23, end: 23 };
    let err = validate_component_fn_signature(&sig).err().expect("refused");
    assert_eq!(err.kind, SignatureErrorKind::MissingReturnType);
    assert_eq!(err.message, "Must return a <dioxus_core::Element>");
    assert_eq!(err.span, Span { start: 23, end: 23 });
}

#[test]
fn lifetime_parameter_is_refused() {
    let mut sig = valid();
    sig.generics.params.push(lifetime());
    let err = validate_component_fn_signature(&sig).err().expect("refused");
    assert_eq!(err.kind, SignatureErrorKind::LifetimeParameter);
    assert_eq!(err.message, "Lifetimes are not supported in components");
    assert_eq!(err.span, Span { start: 10, end: 13 });
}

#[test]
fn async_function_is_refused() {
    let mut sig = valid();
    sig.asyncness = Some(Span { start: 4, end: 9 });
    let err = validate_component_fn_signature(&sig).err().expect("refused");
    assert_eq!(err.kind, SignatureErrorKind::AsyncFn);
    assert_eq!(err.message, "Async components are not supported");
    assert_eq!(err.span, Span { start: 4, end: 9 });
}

#[test]
fn const_function_is_refused() {
    let mut sig = valid();
    sig.constness = Some(Span { start: 4, end: 9 });
    let err = validate_component_fn_signature(&sig).err().expect("refused");
    assert_eq!(err.kind, SignatureErrorKind::ConstFn);
    assert_eq!(err.message, "Const components are not supported");
    assert_eq!(err.span, Span { start: 4, end: 9 });
}

#[test]
fn receiver_is_refused() {
    let mut sig = valid();
    sig.inputs.insert(0, Parameter::Receiver("&self".to_string()));
    let err = validate_component_fn_signature(&sig).err().expect("refused");
    assert_eq!(err.kind, SignatureErrorKind::ReceiverParameter);
    assert_eq!(err.message, "Receiver parameters are not supported");
    assert_eq!(err.span, Span { start: 14, end: 22 });
}

#[test]
fn first_fault_is_the_one_reported() {
    let mut sig = valid();
    sig.inputs.insert(0, Parameter::Receiver("self".to_string()));
    sig.constness = Some(Span { start: 0, end: 5 });
    let err = validate_component_fn_signature(&sig).err().expect("refused");
    assert_eq!(err.kind, SignatureErrorKind::ConstFn);
    sig.asyncness = Some(Span { start: 6, end: 11 });
    let err = validate_component_fn_signature(&sig).err().expect("refused");
    assert_eq!(err.kind, SignatureErrorKind::AsyncFn);
    sig.generics.params.insert(0, lifetime());
    let err = validate_component_fn_signature(&sig).err().expect("refused");
    assert_eq!(err.kind, SignatureErrorKind::LifetimeParameter);
    sig.output = ReturnType::Default;
    let err = validate_component_fn_signature(&sig).err().expect("refused");
    assert_eq!(err.kind, SignatureErrorKind::MissingReturnType);
}

#[test]
fn diagnostics_differ() {
    let kinds = [
        SignatureErrorKind::MissingReturnType,
        SignatureErrorKind::LifetimeParameter,
        SignatureErrorKind::AsyncFn,
        SignatureErrorKind::ConstFn,
        SignatureErrorKind::ReceiverParameter,
    ];
    for i in 0..kinds.len() {
        for j in 0..kinds.len() {
            assert_eq!(kinds[i].message() == kinds[j].message(), i == j);
        }
    }
}

#[test]
fn parse_refuses_what_validation_refuses() {
    let mut sig = valid();
    sig.asyncness = Some(Span { start: 1, end: 2 });
    let err = ComponentBody::parse(sig).err().expect("refused");
    assert_eq!(err.kind, SignatureErrorKind::AsyncFn);
    assert_eq!(err.span, Span { start: 1, end: 2 });
}
