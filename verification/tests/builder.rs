use builder_gen::builder_gen::{
    BuilderGenCtx, CallBody, DeclKind, FieldExpr, FinishBody, MethodKind, Receiver,
    StructLiteralBody,
};
use builder_gen::input_fn::{FnDecl, FnInputCtx};
use builder_gen::diag::{Diagnostic, ErrorKind, Span};
use builder_gen::field::{Field, FieldParams};
use builder_gen::input_struct::{generic_param_to_arg, make_applied_type, StructInputCtx};
use builder_gen::normalize::normalize_tokens;
use builder_gen::params::{BuilderParams, ItemParams, StructInputParams};
use builder_gen::state::{BuilderState, SlotKind};
use builder_gen::syntax::{
    Attribute, FieldsShape, GenericParam, Member, MetaOption, ParamKind, StructDecl, Token,
    TokenKind, Visibility,
};

#[derive(Clone, Debug, PartialEq)]
enum Value {
    Str(&'static str),
    Int(i64),
    Bytes(Vec<u8>),
}

fn show(v: &Value) -> String {
    match v {
        Value::Str(s) => format!("{:?}", s),
        Value::Int(i) => format!("{:?}", i),
        Value::Bytes(b) => format!("{:?}", b),
    }
}

fn sp(lo: u64, hi: u64) -> Span {
    Span { lo, hi }
}

fn id(s: &str) -> Token {
    Token::new(TokenKind::Ident, s)
}

fn pt(s: &str) -> Token {
    Token::new(TokenKind::Punct, s)
}

fn lt(s: &str) -> Token {
    Token::new(TokenKind::Lifetime, s)
}

fn lit(s: &str) -> Token {
    Token::new(TokenKind::Literal, s)
}

fn text(ts: &[Token]) -> String {
    let words: Vec<&str> = ts.iter().map(|t| t.text.as_str()).collect();
    words.join(" ")
}

fn param(kind: ParamKind, name: &str, bounds: Vec<Token>) -> GenericParam {
    GenericParam { kind, name: name.to_string(), bounds }
}

fn member(name: &str, ty: Vec<Token>, at: u64) -> Member {
    Member { attrs: vec![], name: Some(name.to_string()), ty, span: sp(at, at + 1) }
}

fn option(key: &str, value: Option<Vec<Token>>, at: u64) -> MetaOption {
    MetaOption { key: key.to_string(), value, span: sp(at, at + 1) }
}

fn builder_attr(options: Vec<MetaOption>) -> Attribute {
    Attribute { path: vec!["builder".to_string()], args: vec![], options }
}

fn other_attr(name: &str, arg: &str) -> Attribute {
    Attribute {
        path: vec![name.to_string()],
        args: vec![Token::new(TokenKind::Open, "("), id(arg), Token::new(TokenKind::Close, ")")],
        options: vec![option(arg, None, 0)],
    }
}

fn no_params() -> StructInputParams {
    StructInputParams {
        base: BuilderParams { finish_fn: None, builder_type: None },
        start_fn: None,
    }
}

fn decl(name: &str, generics: Vec<GenericParam>, fields: FieldsShape) -> StructDecl {
    StructDecl {
        attrs: vec![],
        vis: Visibility::Inherited,
        name: name.to_string(),
        generics,
        where_clause: None,
        fields,
        span: sp(0, 100),
    }
}

fn sut_decl() -> StructDecl {
    let mut d = decl(
        "Sut",
        vec![
            param(ParamKind::Lifetime, "'a", vec![]),
            param(ParamKind::Lifetime, "'b", vec![]),
            param(ParamKind::Type, "T", vec![]),
            param(ParamKind::Type, "U", vec![]),
            param(ParamKind::Const, "N", vec![pt(":"), id("usize")]),
        ],
        FieldsShape::Named(vec![
            member("a", vec![pt("&"), lt("'a"), id("str")], 10),
            member("b", vec![pt("&"), lt("'b"), id("str")], 20),
            member("c", vec![id("T")], 30),
            member("d", vec![id("U")], 40),
            member(
                "e",
                vec![
                    Token::new(TokenKind::Open, "["),
                    id("u8"),
                    pt(";"),
                    id("N"),
                    Token::new(TokenKind::Close, "]"),
                ],
                50,
            ),
        ]),
    );
    d.attrs = vec![builder_attr(vec![]), other_attr("derive", "Debug"), other_attr("allow", "unused")];
    d
}

fn ctx_of(params: StructInputParams, d: StructDecl) -> BuilderGenCtx {
    StructInputCtx::new(params, d).unwrap().into_builder_gen_ctx().unwrap()
}

fn index_of(ctx: &BuilderGenCtx, setter: &str) -> usize {
    let ds = ctx.emit().unwrap();
    let m = ds[3]
        .methods
        .iter()
        .find(|m| m.kind == MethodKind::Setter && m.ident == setter)
        .unwrap();
    m.field.unwrap()
}

fn debug_of(ctx: &BuilderGenCtx, values: &[Option<Value>]) -> String {
    let parts: Vec<String> = ctx
        .fields
        .iter()
        .zip(values.iter())
        .map(|(f, v)| format!("{}: {}", f.ident, show(v.as_ref().unwrap())))
        .collect();
    let FinishBody::StructLiteral(body) = &ctx.finish_func.body else {
        panic!("a struct literal expected")
    };
    format!("{} {{ {} }}", body.struct_ident, parts.join(", "))
}

#[test]
fn generic_struct() {
    let ctx = ctx_of(no_params(), sut_decl());
    assert_eq!(ctx.start_func.ident, "builder");
    assert_eq!(ctx.finish_func.ident, "build");

    let actual = BuilderState::<Value>::start(&ctx.fields)
        .set(index_of(&ctx, "a"), Value::Str("a"))
        .set(index_of(&ctx, "b"), Value::Str("b"))
        .set(index_of(&ctx, "c"), Value::Int(42))
        .set(index_of(&ctx, "d"), Value::Str("d"))
        .set(index_of(&ctx, "e"), Value::Bytes(vec![0; 3]))
        .try_finish()
        .unwrap();

    assert_eq!(
        debug_of(&ctx, &actual),
        "Sut { a: \"a\", b: \"b\", c: 42, d: \"d\", e: [0, 0, 0] }"
    );
}

fn fn_decl(name: &str, generics: Vec<GenericParam>, receiver: Receiver, params: Vec<Member>) -> FnDecl {
    FnDecl {
        attrs: vec![builder_attr(vec![])],
        vis: Visibility::Inherited,
        name: name.to_string(),
        generics,
        where_clause: None,
        receiver,
        params,
        is_unsafe: false,
        is_async: false,
        output: vec![],
        span: sp(0, 100),
    }
}

fn no_base() -> BuilderParams {
    BuilderParams { finish_fn: None, builder_type: None }
}

struct Sut<const N: usize>;

impl<const N: usize> Sut<N> {
    const fn val(&self) -> usize {
        42
    }
}

#[test]
fn impl_block_with_self_in_const_generics() {
    // impl Sut<{ Sut::<3>.val() }> where Self: { fn method(self) -> usize }
    let self_ty = vec![
        id("Sut"),
        pt("<"),
        Token::new(TokenKind::Open, "{"),
        id("Sut"),
        pt("::"),
        pt("<"),
        lit("3"),
        pt(">"),
        pt("."),
        id("val"),
        Token::new(TokenKind::Open, "("),
        Token::new(TokenKind::Close, ")"),
        Token::new(TokenKind::Close, "}"),
        pt(">"),
    ];
    let mut method = fn_decl("method", vec![], Receiver::ByValue, vec![]);
    method.where_clause = Some(vec![id("Self"), pt(":")]);
    method.output = vec![id("usize")];
    let input = FnInputCtx::new(no_base(), method, Some(self_ty.clone())).unwrap();
    assert_eq!(text(input.orig_fn.where_clause.as_ref().unwrap()), "Self :");
    assert_eq!(
        text(input.norm_fn.where_clause.as_ref().unwrap()),
        "Sut < { Sut :: < 3 > . val ( ) } > :"
    );
    let ctx = input.into_builder_gen_ctx().unwrap();
    assert_eq!(ctx.receiver, Receiver::ByValue);
    assert_eq!(ctx.start_func.ident, "method");
    assert_eq!(ctx.finish_func.ident, "call");
    assert_eq!(text(&ctx.finish_func.output), "-> usize");
    assert_eq!(
        text(ctx.generics.where_clause.as_ref().unwrap()),
        "Sut < { Sut :: < 3 > . val ( ) } > :"
    );

    let state = BuilderState::<Vec<Token>>::start(&ctx.fields);
    assert!(state.can_finish());
    let given = state.finish();
    assert_eq!(text(&ctx.finish_body(&given)), "receiver . method ( )");
    assert_eq!(Sut::<42>.val(), 42);
}

#[test]
fn generics_with_lifetimes() {
    let refs: Vec<Token> = vec![pt("&"), pt("&"), pt("&"), pt("&"), pt("&"), id("T")];
    let f = fn_decl(
        "sut",
        vec![param(ParamKind::Type, "T", vec![])],
        Receiver::Absent,
        vec![member("arg", refs.clone(), 10)],
    );
    let ctx = FnInputCtx::new(no_base(), f, None).unwrap().into_builder_gen_ctx().unwrap();
    assert_eq!(ctx.start_func.ident, "sut");
    assert_eq!(ctx.finish_func.ident, "call");
    assert_eq!(ctx.builder_ident, "sutBuilder");
    assert_eq!(ctx.fields[0].ty, refs);
    assert!(ctx.fields[0].mandatory());
    assert_eq!(ctx.generics.params, vec![param(ParamKind::Type, "T", vec![])]);

    let mut arg: Vec<Token> = (0..10).map(|_| pt("&")).collect();
    arg.push(lit("42"));
    let state = BuilderState::<Vec<Token>>::start(&ctx.fields);
    assert!(!state.can_finish());
    let state = state.set(index_of(&ctx, "arg"), arg);
    assert!(state.can_finish());
    let given = state.finish();
    assert_eq!(text(&ctx.finish_body(&given)), "sut ( & & & & & & & & & & 42 , )");
}

#[test]
fn function_markers_reach_the_finishing_method() {
    let mut f = fn_decl("run", vec![], Receiver::Absent, vec![member("x", vec![id("u8")], 5)]);
    f.is_async = true;
    f.is_unsafe = true;
    f.output = vec![id("Self")];
    let self_ty = vec![id("Job"), pt("<"), id("T"), pt(">")];
    let params = BuilderParams {
        finish_fn: Some("go".to_string()),
        builder_type: Some("RunJob".to_string()),
    };
    let ctx = FnInputCtx::new(params, f, Some(self_ty)).unwrap().into_builder_gen_ctx().unwrap();
    assert!(ctx.finish_func.is_async);
    assert!(ctx.finish_func.is_unsafe);
    assert_eq!(ctx.finish_func.ident, "go");
    assert_eq!(ctx.builder_ident, "RunJob");
    assert_eq!(ctx.builder_private_impl_ident, "__RunJobPrivateImpl");
    assert_eq!(text(&ctx.finish_func.output), "-> Job < T >");
    assert_eq!(ctx.start_func.docs, "Use builder syntax to set the inputs of [`run`]");
    let ds = ctx.emit().unwrap();
    let finish = ds[3].methods.last().unwrap();
    assert_eq!(finish.kind, MethodKind::Finish);
    assert!(finish.is_async && finish.is_unsafe);
    assert_eq!(
        text(&ctx.finish_body(&vec![Some(vec![lit("1")])])),
        "< Job < T > > :: run ( 1 , )"
    );
}

#[test]
fn function_inputs_that_are_refused() {
    let method = fn_decl("m", vec![], Receiver::ByReference, vec![]);
    assert_eq!(
        FnInputCtx::new(no_base(), method.clone(), None),
        Err(Diagnostic { kind: ErrorKind::InvalidBuilderConfig, span: sp(0, 100) })
    );
    assert_eq!(
        FnInputCtx::new(no_base(), method, Some(vec![id("Self")])),
        Err(Diagnostic { kind: ErrorKind::GenericsNormalizationFailure, span: sp(0, 100) })
    );
    let unnamed = Member { attrs: vec![], name: None, ty: vec![id("u8")], span: sp(3, 4) };
    let f = fn_decl("f", vec![], Receiver::Absent, vec![member("a", vec![], 1), unnamed]);
    assert_eq!(
        FnInputCtx::new(no_base(), f, None).unwrap().into_builder_gen_ctx(),
        Err(Diagnostic { kind: ErrorKind::UnnamedMember, span: sp(3, 4) })
    );
}

#[test]
fn adapted_fn_drops_the_configuring_attributes() {
    let mut p = member("a", vec![id("Self")], 1);
    p.attrs = vec![builder_attr(vec![option("into", None, 2)])];
    let mut f = fn_decl("f", vec![], Receiver::Absent, vec![p]);
    f.attrs.push(other_attr("inline", "always"));
    let input = FnInputCtx::new(no_base(), f.clone(), Some(vec![id("S")])).unwrap();
    let out = input.adapted_fn();
    assert_eq!(out.attrs, vec![other_attr("inline", "always")]);
    assert!(out.params[0].attrs.is_empty());
    assert_eq!(out.params[0].ty, vec![id("Self")]);
    assert_eq!(input.norm_fn.params[0].ty, vec![id("S")]);
    assert_eq!(input.orig_fn, f);
}

#[test]
fn call_bodies() {
    let exprs = vec![
        FieldExpr { ident: "a".to_string(), expr: vec![lit("1")] },
        FieldExpr { ident: "b".to_string(), expr: vec![id("x"), pt("+"), id("y")] },
    ];
    let free = CallBody { fn_ident: "f".to_string(), receiver: Receiver::Absent, self_ty: None };
    assert_eq!(text(&free.gen(&exprs)), "f ( 1 , x + y , )");
    let method = CallBody { fn_ident: "f".to_string(), receiver: Receiver::ByReference, self_ty: Some(vec![id("S")]) };
    assert_eq!(text(&method.gen(&exprs)), "receiver . f ( 1 , x + y , )");
    let assoc = FinishBody::Call(CallBody {
        fn_ident: "f".to_string(),
        receiver: Receiver::Absent,
        self_ty: Some(vec![id("S")]),
    });
    assert_eq!(text(&assoc.gen(&vec![])), "< S > :: f ( )");
}

#[test]
fn finish_body_resolves_what_was_left_out() {
    let opt = member("o", vec![id("Option"), pt("<"), id("u8"), pt(">")], 20);
    let mut def = member("d", vec![id("u8")], 30);
    def.attrs = vec![builder_attr(vec![option("default", Some(vec![lit("9")]), 31)])];
    let mut bare = member("e", vec![id("u8")], 35);
    bare.attrs = vec![builder_attr(vec![option("default", None, 36)])];
    let mut skipped = member("s", vec![id("u8")], 40);
    skipped.attrs = vec![builder_attr(vec![option("skip", None, 41)])];
    let d = decl(
        "S",
        vec![],
        FieldsShape::Named(vec![member("m", vec![id("u8")], 10), opt, def, bare, skipped]),
    );
    let ctx = ctx_of(no_params(), d);
    let given = BuilderState::<Vec<Token>>::start(&ctx.fields).set(0, vec![lit("1")]).finish();
    assert_eq!(
        text(&ctx.finish_body(&given)),
        "S { m : 1 , o : None , d : 9 , e : Default :: default ( ) , s : Default :: default ( ) , }"
    );
    let given = BuilderState::<Vec<Token>>::start(&ctx.fields)
        .set(2, vec![lit("3")])
        .set(1, vec![id("Some"), Token::new(TokenKind::Open, "("), lit("2"), Token::new(TokenKind::Close, ")")])
        .set(0, vec![lit("1")])
        .set(3, vec![lit("4")])
        .finish();
    assert_eq!(
        text(&ctx.finish_body(&given)),
        "S { m : 1 , o : Some ( 2 ) , d : 3 , e : 4 , s : Default :: default ( ) , }"
    );
}

#[test]
fn declaration_options_are_validated() {
    let word = |w: &str| Some(vec![id(w)]);
    let ok = StructInputParams::validate(&vec![
        option("finish_fn", word("finish"), 1),
        option("start_fn", word("make"), 2),
        option("builder_type", word("Maker"), 3),
        option("start_fn_vis", word("pub"), 4),
    ])
    .unwrap();
    assert_eq!(
        ok,
        StructInputParams {
            base: BuilderParams {
                finish_fn: Some("finish".to_string()),
                builder_type: Some("Maker".to_string()),
            },
            start_fn: Some(ItemParams {
                name: Some("make".to_string()),
                vis: Some(Visibility::Public)
            }),
        }
    );
    assert_eq!(StructInputParams::validate(&vec![]).unwrap(), no_params());
    let crate_vis = StructInputParams::validate(&vec![
        option("start_fn", word("make"), 2),
        option("start_fn_vis", word("crate"), 4),
    ])
    .unwrap();
    assert_eq!(crate_vis.start_fn.unwrap().vis, Some(Visibility::Crate));
    let private = StructInputParams::validate(&vec![
        option("start_fn_vis", word("private"), 4),
        option("start_fn", word("make"), 2),
    ])
    .unwrap();
    assert_eq!(private.start_fn.unwrap().vis, Some(Visibility::Inherited));

    let at = |kind: ErrorKind, lo: u64| Err(Diagnostic { kind, span: sp(lo, lo + 1) });
    assert_eq!(
        StructInputParams::validate(&vec![option("bogus", word("x"), 7)]),
        at(ErrorKind::InvalidOption, 7)
    );
    assert_eq!(
        StructInputParams::validate(&vec![option("finish_fn", None, 7)]),
        at(ErrorKind::InvalidOption, 7)
    );
    assert_eq!(
        StructInputParams::validate(&vec![option("start_fn_vis", word("loud"), 7)]),
        at(ErrorKind::InvalidOption, 7)
    );
    assert_eq!(
        StructInputParams::validate(&vec![
            option("finish_fn", word("a"), 1),
            option("finish_fn", word("b"), 2)
        ]),
        at(ErrorKind::ConflictingOption, 2)
    );
    assert_eq!(
        StructInputParams::validate(&vec![
            option("finish_fn", word("a"), 1),
            option("start_fn_vis", word("pub"), 5)
        ]),
        at(ErrorKind::MissingRequiredOption, 5)
    );
    // the first failure wins
    assert_eq!(
        StructInputParams::validate(&vec![
            option("start_fn_vis", word("pub"), 5),
            option("bogus", word("x"), 6)
        ]),
        at(ErrorKind::InvalidOption, 6)
    );
}

#[test]
fn default_names() {
    let ctx = ctx_of(no_params(), sut_decl());
    assert_eq!(ctx.builder_ident, "SutBuilder");
    assert_eq!(ctx.builder_private_impl_ident, "__SutBuilderPrivateImpl");
    assert_eq!(ctx.builder_state_trait_ident, "__SutBuilderState");
    assert_eq!(ctx.start_func.docs, "Use builder syntax to create an instance of [`Sut`]");
    assert_eq!(ctx.start_func.vis, None);
    assert_eq!(ctx.start_func.generics, None);
    assert_eq!(ctx.receiver, Receiver::Absent);
    assert_eq!(ctx.vis, Visibility::Inherited);
    assert!(!ctx.finish_func.is_unsafe);
    assert!(!ctx.finish_func.is_async);
    assert_eq!(text(&ctx.finish_func.output), "-> Sut < 'a , 'b , T , U , N >");
}

#[test]
fn configured_names() {
    let params = StructInputParams {
        base: BuilderParams {
            finish_fn: Some("finish".to_string()),
            builder_type: Some("Maker".to_string()),
        },
        start_fn: Some(ItemParams { name: Some("make".to_string()), vis: Some(Visibility::Public) }),
    };
    let input = StructInputCtx::new(params, sut_decl()).unwrap();
    assert_eq!(input.builder_ident(), "Maker");
    let ctx = input.into_builder_gen_ctx().unwrap();
    assert_eq!(ctx.builder_ident, "Maker");
    assert_eq!(ctx.builder_private_impl_ident, "__MakerPrivateImpl");
    assert_eq!(ctx.builder_state_trait_ident, "__MakerState");
    assert_eq!(ctx.start_func.ident, "make");
    assert_eq!(ctx.start_func.vis, Some(Visibility::Public));
    assert_eq!(ctx.finish_func.ident, "finish");
}

#[test]
fn start_fn_without_a_name_keeps_the_default() {
    let mut params = no_params();
    params.start_fn = Some(ItemParams { name: None, vis: Some(Visibility::Crate) });
    let ctx = ctx_of(params, sut_decl());
    assert_eq!(ctx.start_func.ident, "builder");
    assert_eq!(ctx.start_func.vis, Some(Visibility::Crate));
}

#[test]
fn applied_type_of_each_parameter_kind() {
    assert_eq!(generic_param_to_arg(&param(ParamKind::Lifetime, "'a", vec![])), lt("'a"));
    assert_eq!(generic_param_to_arg(&param(ParamKind::Type, "T", vec![id("Clone")])), id("T"));
    assert_eq!(generic_param_to_arg(&param(ParamKind::Const, "N", vec![])), id("N"));
    assert_eq!(text(&make_applied_type(&"Unit".to_string(), &vec![])), "Unit < >");
    assert_eq!(
        text(&make_applied_type(&"One".to_string(), &vec![param(ParamKind::Type, "T", vec![])])),
        "One < T >"
    );
}

#[test]
fn self_is_rewritten_everywhere() {
    let ty = vec![id("Sut"), pt("<"), id("T"), pt(">")];
    let src = vec![id("Vec"), pt("<"), id("Self"), pt(">"), pt("+"), id("Self"), id("Selfish")];
    let out = normalize_tokens(&src, &ty);
    assert_eq!(text(&out), "Vec < Sut < T > > + Sut < T > Selfish");
    // a second pass changes nothing
    assert_eq!(normalize_tokens(&out, &ty), out);
    // a literal spelled like the self type is no self type
    let quoted = vec![lit("Self")];
    assert_eq!(normalize_tokens(&quoted, &ty), quoted);
}

#[test]
fn self_in_bounds_is_rewritten() {
    let d = decl(
        "Node",
        vec![param(ParamKind::Type, "T", vec![pt(":"), id("Into"), pt("<"), id("Self"), pt(">")])],
        FieldsShape::Named(vec![member("next", vec![id("Option"), pt("<"), id("Self"), pt(">")], 5)]),
    );
    let input = StructInputCtx::new(no_params(), d.clone()).unwrap();
    assert_eq!(input.orig_struct, d);
    assert_eq!(text(&input.norm_struct.generics[0].bounds), ": Into < Node < T > >");
    let ctx = input.into_builder_gen_ctx().unwrap();
    assert_eq!(text(&ctx.fields[0].ty), "Option < Node < T > >");
    assert!(ctx.fields[0].optional);
    assert!(!ctx.fields[0].mandatory());
    assert_eq!(ctx.generics.params[0].kind, ParamKind::Type);
    assert_eq!(ctx.generics.params[0].name, "T");
}

#[test]
fn a_struct_named_like_the_self_type_is_refused() {
    let d = decl("Self", vec![], FieldsShape::Named(vec![]));
    assert_eq!(
        StructInputCtx::new(no_params(), d),
        Err(Diagnostic { kind: ErrorKind::GenericsNormalizationFailure, span: sp(0, 100) })
    );
    let d = decl("S", vec![param(ParamKind::Type, "Self", vec![])], FieldsShape::Named(vec![]));
    assert_eq!(
        StructInputCtx::new(no_params(), d).unwrap_err().kind,
        ErrorKind::GenericsNormalizationFailure
    );
}

#[test]
fn tuple_and_unit_structs_are_refused() {
    let unnamed = Member { attrs: vec![], name: None, ty: vec![id("u8")], span: sp(3, 4) };
    for fields in [FieldsShape::Unnamed(vec![unnamed]), FieldsShape::Unit] {
        let input = StructInputCtx::new(no_params(), decl("T", vec![], fields)).unwrap();
        let err = input.into_builder_gen_ctx().unwrap_err();
        assert_eq!(err, Diagnostic { kind: ErrorKind::UnsupportedFields, span: sp(0, 100) });
        assert_eq!(err.message(), "Only structs with named fields are supported");
    }
}

#[test]
fn a_member_without_a_name_is_refused() {
    let unnamed = Member { attrs: vec![], name: None, ty: vec![id("u8")], span: sp(3, 4) };
    let err = Field::from_syn_field(&unnamed).unwrap_err();
    assert_eq!(err, Diagnostic { kind: ErrorKind::UnnamedMember, span: sp(3, 4) });
    assert_eq!(
        err.message(),
        "Only structs with named fields are supported. Please name all fields of the struct"
    );
}

#[test]
fn the_first_failing_member_decides() {
    let mut bad1 = member("x", vec![id("u8")], 7);
    bad1.attrs = vec![builder_attr(vec![option("bogus", None, 70)])];
    let bad2 = Member { attrs: vec![], name: None, ty: vec![id("u8")], span: sp(9, 10) };
    let d = decl(
        "S",
        vec![],
        FieldsShape::Named(vec![member("ok", vec![id("u8")], 5), bad1, bad2]),
    );
    let err = StructInputCtx::new(no_params(), d).unwrap().into_builder_gen_ctx().unwrap_err();
    assert_eq!(err, Diagnostic { kind: ErrorKind::InvalidOption, span: sp(70, 71) });
}

#[test]
fn fields_keep_the_order_of_the_members() {
    let ctx = ctx_of(no_params(), sut_decl());
    let names: Vec<&str> = ctx.fields.iter().map(|f| f.ident.as_str()).collect();
    assert_eq!(names, vec!["a", "b", "c", "d", "e"]);
    assert_eq!(ctx.fields[4].span, sp(50, 51));
    assert_eq!(text(&ctx.fields[0].ty), "& 'a str");
}

#[test]
fn field_options_are_read() {
    let attrs = vec![
        other_attr("doc", "hidden"),
        builder_attr(vec![option("into", None, 1), option("name", Some(vec![id("with_x")]), 2)]),
        builder_attr(vec![option("default", Some(vec![lit("7")]), 3)]),
    ];
    let f = Field::new(&attrs, "x".to_string(), vec![id("u32")], sp(0, 9)).unwrap();
    assert_eq!(
        f.params,
        FieldParams {
            skip: false,
            default: Some(vec![lit("7")]),
            into: true,
            name: Some("with_x".to_string()),
        }
    );
    assert!(f.optional);
    assert!(!f.mandatory());

    let bare = builder_attr(vec![option("default", None, 3)]);
    let f = Field::new(&vec![bare], "x".to_string(), vec![id("u32")], sp(0, 9)).unwrap();
    assert_eq!(f.params.default, Some(vec![]));

    let skip = builder_attr(vec![option("skip", None, 3)]);
    let f = Field::new(&vec![skip], "x".to_string(), vec![id("u32")], sp(0, 9)).unwrap();
    assert!(f.params.skip);
    assert!(!f.optional);
    assert!(!f.mandatory());
}

#[test]
fn field_option_failures() {
    let run = |opts: Vec<MetaOption>| {
        Field::new(&vec![builder_attr(opts)], "x".to_string(), vec![id("u32")], sp(0, 9))
            .unwrap_err()
    };
    let at = |kind: ErrorKind, lo: u64| Diagnostic { kind, span: sp(lo, lo + 1) };
    assert_eq!(run(vec![option("bogus", None, 4)]), at(ErrorKind::InvalidOption, 4));
    assert_eq!(
        run(vec![option("skip", None, 1), option("default", None, 2)]),
        at(ErrorKind::ConflictingOption, 2)
    );
    assert_eq!(
        run(vec![option("default", None, 1), option("skip", None, 2)]),
        at(ErrorKind::ConflictingOption, 2)
    );
    assert_eq!(
        run(vec![option("into", None, 1), option("into", None, 2)]),
        at(ErrorKind::ConflictingOption, 2)
    );
    assert_eq!(run(vec![option("skip", Some(vec![lit("1")]), 1)]), at(ErrorKind::InvalidOption, 1));
    assert_eq!(run(vec![option("into", Some(vec![lit("1")]), 1)]), at(ErrorKind::InvalidOption, 1));
    assert_eq!(run(vec![option("name", None, 1)]), at(ErrorKind::InvalidOption, 1));
    assert_eq!(run(vec![option("name", Some(vec![lit("1")]), 1)]), at(ErrorKind::InvalidOption, 1));
    assert_eq!(
        run(vec![option("name", Some(vec![id("a")]), 1), option("name", Some(vec![id("b")]), 2)]),
        at(ErrorKind::ConflictingOption, 2)
    );
    // options of other attributes are not looked at
    let other = Attribute {
        path: vec!["serde".to_string()],
        args: vec![],
        options: vec![option("bogus", None, 4)],
    };
    assert!(Field::new(&vec![other], "x".to_string(), vec![], sp(0, 9)).is_ok());
    let longer = Attribute {
        path: vec!["builder".to_string(), "x".to_string()],
        args: vec![],
        options: vec![option("bogus", None, 4)],
    };
    assert!(Field::new(&vec![longer], "x".to_string(), vec![], sp(0, 9)).is_ok());
}

#[test]
fn adapted_struct_drops_the_configuring_attributes() {
    let mut d = sut_decl();
    if let FieldsShape::Named(ms) = &mut d.fields {
        ms[0].attrs = vec![builder_attr(vec![option("into", None, 1)]), other_attr("doc", "x")];
    }
    let input = StructInputCtx::new(no_params(), d.clone()).unwrap();
    let out = input.adapted_struct();
    assert_eq!(out.attrs, vec![other_attr("derive", "Debug"), other_attr("allow", "unused")]);
    let FieldsShape::Named(ms) = &out.fields else { panic!("named fields expected") };
    assert_eq!(ms[0].attrs, vec![other_attr("doc", "x")]);
    let mut expected = d;
    expected.attrs.remove(0);
    if let FieldsShape::Named(ms) = &mut expected.fields {
        ms[0].attrs.remove(0);
    }
    assert_eq!(out, expected);
}

#[test]
fn struct_literal_body() {
    let body = StructLiteralBody { struct_ident: "Sut".to_string() };
    let exprs = vec![
        FieldExpr { ident: "a".to_string(), expr: vec![lit("\"a\"")] },
        FieldExpr { ident: "c".to_string(), expr: vec![lit("40"), pt("+"), lit("2")] },
    ];
    assert_eq!(text(&body.gen(&exprs)), "Sut { a : \"a\" , c : 40 + 2 , }");
    assert_eq!(text(&body.gen(&vec![])), "Sut { }");
    let out = body.gen(&exprs);
    assert_eq!(out[0].kind, TokenKind::Ident);
    assert_eq!(out[1].kind, TokenKind::Open);
    assert_eq!(out[3].kind, TokenKind::Punct);
    assert_eq!(out[out.len() - 1].kind, TokenKind::Close);
}

#[test]
fn emitted_declarations() {
    let mut d = sut_decl();
    if let FieldsShape::Named(ms) = &mut d.fields {
        ms[1].attrs = vec![builder_attr(vec![option("default", None, 1)])];
        ms[3].attrs = vec![builder_attr(vec![option("skip", None, 1)])];
    }
    d.vis = Visibility::Public;
    let ctx = ctx_of(no_params(), d);
    assert_eq!(ctx.marker_count(), 3);
    let ds = ctx.emit().unwrap();
    let kinds: Vec<DeclKind> = ds.iter().map(|d| d.kind).collect();
    assert_eq!(
        kinds,
        vec![DeclKind::BuilderType, DeclKind::StateTrait, DeclKind::PrivateImpl, DeclKind::ImplBlock]
    );
    let names: Vec<&str> = ds.iter().map(|d| d.ident.as_str()).collect();
    assert_eq!(names, vec!["SutBuilder", "__SutBuilderState", "__SutBuilderPrivateImpl", "SutBuilder"]);
    for d in &ds {
        assert_eq!(d.generics, ctx.generics);
        assert_eq!(d.markers, 3);
        let kinds: Vec<ParamKind> = d.generics.params.iter().map(|p| p.kind).collect();
        assert_eq!(
            kinds,
            vec![
                ParamKind::Lifetime,
                ParamKind::Lifetime,
                ParamKind::Type,
                ParamKind::Type,
                ParamKind::Const
            ]
        );
    }
    assert_eq!(ds[0].vis, Visibility::Public);
    assert_eq!(ds[1].vis, Visibility::Inherited);
    let methods: Vec<(MethodKind, &str, Option<usize>, Option<usize>)> =
        ds[3].methods.iter().map(|m| (m.kind, m.ident.as_str(), m.field, m.marker)).collect();
    assert_eq!(
        methods,
        vec![
            (MethodKind::Start, "builder", None, None),
            (MethodKind::Setter, "a", Some(0), Some(0)),
            (MethodKind::Setter, "b", Some(1), None),
            (MethodKind::Setter, "c", Some(2), Some(1)),
            (MethodKind::Setter, "e", Some(4), Some(2)),
            (MethodKind::Finish, "build", None, None),
        ]
    );
}

#[test]
fn clashing_method_names_are_refused() {
    let mut second = member("y", vec![id("u8")], 20);
    second.attrs = vec![builder_attr(vec![option("name", Some(vec![id("x")]), 21)])];
    let d = decl(
        "S",
        vec![],
        FieldsShape::Named(vec![member("x", vec![id("u8")], 10), second]),
    );
    assert_eq!(
        ctx_of(no_params(), d).emit(),
        Err(Diagnostic { kind: ErrorKind::InvalidBuilderConfig, span: sp(20, 21) })
    );
    let d = decl("S", vec![], FieldsShape::Named(vec![member("build", vec![id("u8")], 10)]));
    assert_eq!(
        ctx_of(no_params(), d).emit().unwrap_err(),
        Diagnostic { kind: ErrorKind::InvalidBuilderConfig, span: sp(10, 11) }
    );
}

#[test]
fn setters_in_any_order_give_the_same_value() {
    let ctx = ctx_of(no_params(), sut_decl());
    let vals = [
        Value::Str("a"),
        Value::Str("b"),
        Value::Int(42),
        Value::Str("d"),
        Value::Bytes(vec![0, 0, 0]),
    ];
    let direct: Vec<Option<Value>> = vals.iter().cloned().map(Some).collect();
    for order in [[0, 1, 2, 3, 4], [4, 3, 2, 1, 0], [2, 0, 4, 1, 3]] {
        let mut state = BuilderState::<Value>::start(&ctx.fields);
        for i in order {
            assert!(state.can_set(i));
            state = state.set(i, vals[i].clone());
            assert!(!state.can_set(i));
        }
        assert!(state.can_finish());
        assert_eq!(state.finish(), direct);
    }
}

#[test]
fn finishing_needs_every_mandatory_field() {
    let ctx = ctx_of(no_params(), sut_decl());
    for missing in 0..5 {
        let mut state = BuilderState::<Value>::start(&ctx.fields);
        for i in 0..5 {
            if i != missing {
                state = state.set(i, Value::Int(i as i64));
            }
        }
        assert!(!state.can_finish());
        assert_eq!(state.try_finish(), None);
    }
}

#[test]
fn optional_fields_may_be_left_out() {
    let mut opt = member("o", vec![id("Option"), pt("<"), id("u8"), pt(">")], 20);
    opt.attrs = vec![];
    let mut def = member("d", vec![id("u8")], 30);
    def.attrs = vec![builder_attr(vec![option("default", Some(vec![lit("9")]), 31)])];
    let mut skipped = member("s", vec![id("u8")], 40);
    skipped.attrs = vec![builder_attr(vec![option("skip", None, 41)])];
    let d = decl(
        "S",
        vec![],
        FieldsShape::Named(vec![member("m", vec![id("u8")], 10), opt, def, skipped]),
    );
    let ctx = ctx_of(no_params(), d);
    let state = BuilderState::<Value>::start(&ctx.fields);
    assert_eq!(
        state.kinds,
        vec![SlotKind::Mandatory, SlotKind::Optional, SlotKind::Optional, SlotKind::Skipped]
    );
    assert!(!state.can_set(3));
    assert!(!state.can_set(4));
    let state = state.set(0, Value::Int(1));
    assert!(state.can_finish());
    assert_eq!(state.try_finish(), Some(vec![Some(Value::Int(1)), None, None, None]));
    assert_eq!(ctx.fields[2].params.default, Some(vec![lit("9")]));
}

#[test]
fn messages() {
    let at = sp(0, 0);
    assert_eq!(Diagnostic::new(ErrorKind::InvalidOption, at).message(), "Unknown option");
    assert_eq!(
        Diagnostic::new(ErrorKind::ConflictingOption, at).message(),
        "These options are mutually exclusive"
    );
    assert_eq!(
        Diagnostic::new(ErrorKind::MissingRequiredOption, at).message(),
        "This option requires another option that is absent"
    );
    assert_eq!(
        Diagnostic::new(ErrorKind::InvalidBuilderConfig, at).message(),
        "Invalid builder configuration"
    );
    assert_eq!(
        Diagnostic::new(ErrorKind::GenericsNormalizationFailure, at).message(),
        "Cannot resolve the self type"
    );
}

#[test]
fn headers_declare_the_generics_again() {
    let mut d = sut_decl();
    d.where_clause = Some(vec![id("T"), pt(":"), id("Into"), pt("<"), id("Self"), pt(">")]);
    let ctx = ctx_of(no_params(), d);
    let ds = ctx.emit().unwrap();
    let headers: Vec<String> = ds.iter().map(|d| text(&d.header())).collect();
    let list = "< 'a , 'b , T , U , const N : usize , >";
    let clause = "where T : Into < Sut < 'a , 'b , T , U , N > >";
    assert_eq!(
        headers,
        vec![
            format!("struct SutBuilder {list} {clause}"),
            format!("trait __SutBuilderState {list} {clause}"),
            format!("struct __SutBuilderPrivateImpl {list} {clause}"),
            format!("impl {list} SutBuilder < 'a , 'b , T , U , N > {clause}"),
        ]
    );
    for h in &headers {
        assert!(h.contains("'a") && h.contains("T") && h.contains("const N : usize"));
    }
}

#[test]
fn headers_state_the_visibility() {
    let mut d = decl("S", vec![], FieldsShape::Named(vec![]));
    d.vis = Visibility::Public;
    let ds = ctx_of(no_params(), d.clone()).emit().unwrap();
    assert_eq!(text(&ds[0].header()), "pub struct SBuilder < >");
    assert_eq!(text(&ds[1].header()), "trait __SBuilderState < >");
    assert_eq!(text(&ds[3].header()), "impl < > SBuilder < >");
    d.vis = Visibility::Crate;
    let ds = ctx_of(no_params(), d).emit().unwrap();
    assert_eq!(text(&ds[0].header()), "pub ( crate ) struct SBuilder < >");
}

#[test]
fn finish_body_is_refused_while_a_mandatory_field_is_missing() {
    let ctx = ctx_of(no_params(), sut_decl());
    let mut given: Vec<Option<Vec<Token>>> = vec![Some(vec![lit("0")]); 5];
    assert!(ctx.try_finish_body(&given).is_some());
    for missing in 0..5 {
        let mut short = given.clone();
        short[missing] = None;
        assert_eq!(ctx.try_finish_body(&short), None);
    }
    given.pop();
    assert_eq!(ctx.try_finish_body(&given), None);
}
