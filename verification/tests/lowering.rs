use codercompile::backends::js::Version;
use codercompile::backends::{Backend, JavascriptBackend, NameRegistry, NameRegistryResult};
use codercompile::il::{Block, Statement, Type, Value};

fn backend() -> JavascriptBackend {
    JavascriptBackend::new(Version::ES6, "out.js")
}

fn registry(names: &[&str]) -> NameRegistry {
    let mut r = NameRegistry::new();
    for n in names {
        assert!(matches!(
            r.add(n, Type::Function(vec![Type::Int], Box::new(Type::Null))),
            NameRegistryResult::Success
        ));
    }
    r
}

fn call(name: &str, args: Vec<Value>) -> Value {
    Value::FnCall(name.to_string(), args)
}

fn block(statements: Vec<Statement>) -> Block {
    let mut b = Block::new();
    for s in statements {
        b.add(s);
    }
    b
}

#[test]
fn empty_block_lowers_to_empty_text() {
    let mut ctx = NameRegistry::new();
    assert_eq!(backend().compile(&Block::new(), &mut ctx).unwrap(), "");
    let mut ctx = registry(&["f"]);
    assert_eq!(
        JavascriptBackend::new(Version::ES5, "").compile(&Block::new(), &mut ctx).unwrap(),
        ""
    );
}

#[test]
fn call_statement_of_a_declared_name() {
    let mut ctx = registry(&["f"]);
    let b = block(vec![Statement::Val(call("f", vec![Value::Int(69)]))]);
    assert_eq!(backend().compile(&b, &mut ctx).unwrap(), "f(69);");
}

#[test]
fn call_of_an_undeclared_name_fails() {
    let mut ctx = registry(&["f"]);
    let r = backend().compile_value(&call("g", vec![Value::Int(69)]), &mut ctx);
    assert!(matches!(r, Err(NameRegistryResult::NameNotFoundError(n)) if n == "g"));
    let b = block(vec![Statement::Val(call("g", vec![]))]);
    let r = backend().compile(&b, &mut ctx);
    assert!(matches!(r, Err(NameRegistryResult::NameNotFoundError(n)) if n == "g"));
}

#[test]
fn literals_lower_to_their_text() {
    let mut ctx = NameRegistry::new();
    let mut js = backend();
    assert_eq!(js.compile_value(&Value::Int(-12), &mut ctx).unwrap(), "-12");
    assert_eq!(js.compile_value(&Value::Uint(12), &mut ctx).unwrap(), "12");
    assert_eq!(js.compile_value(&Value::Byte(0), &mut ctx).unwrap(), "00");
    assert_eq!(js.compile_value(&Value::Byte(171), &mut ctx).unwrap(), "AB");
    assert_eq!(js.compile_value(&Value::Char('k'), &mut ctx).unwrap(), "k");
    assert_eq!(js.compile_value(&Value::Bool(true), &mut ctx).unwrap(), "true");
    assert_eq!(js.compile_value(&Value::Bool(false), &mut ctx).unwrap(), "false");
}

#[test]
fn call_arguments_are_joined_without_spaces() {
    let mut ctx = registry(&["f", "g"]);
    let mut js = backend();
    assert_eq!(js.compile_value(&call("f", vec![]), &mut ctx).unwrap(), "f()");
    let v = call(
        "f",
        vec![Value::Int(1), call("g", vec![Value::Bool(true), Value::Byte(255)]), Value::Char('c')],
    );
    assert_eq!(js.compile_value(&v, &mut ctx).unwrap(), "f(1,g(true,FF),c)");
}

#[test]
fn first_failing_argument_is_reported() {
    let mut ctx = registry(&["f"]);
    let v = call(
        "f",
        vec![
            Value::Int(1),
            call("f", vec![call("first", vec![])]),
            call("second", vec![]),
        ],
    );
    let r = backend().compile_value(&v, &mut ctx);
    assert!(matches!(r, Err(NameRegistryResult::NameNotFoundError(n)) if n == "first"));
}

#[test]
fn undeclared_callee_is_reported_before_its_arguments() {
    let mut ctx = NameRegistry::new();
    let v = call("outer", vec![call("inner", vec![])]);
    let r = backend().compile_value(&v, &mut ctx);
    assert!(matches!(r, Err(NameRegistryResult::NameNotFoundError(n)) if n == "outer"));
}

#[test]
fn other_expressions_lower_to_empty_text() {
    let mut ctx = NameRegistry::new();
    let mut js = backend();
    let others = vec![
        Value::Name("x".to_string()),
        Value::List(vec![Value::Int(1)]),
        Value::Type(Type::Int),
        Value::Custom(Type::Custom("P".to_string()), vec![]),
        Value::Add(Box::new(Value::Int(1)), Box::new(Value::Int(2))),
        Value::Not(Box::new(call("undeclared", vec![]))),
    ];
    for v in &others {
        assert_eq!(js.compile_value(v, &mut ctx).unwrap(), "");
    }
    let b = block(vec![Statement::Val(Value::Name("x".to_string()))]);
    assert_eq!(js.compile(&b, &mut ctx).unwrap(), ";");
}

#[test]
fn other_statements_are_skipped() {
    let mut ctx = registry(&["f"]);
    let b = block(vec![
        Statement::VarDeclare("t".to_string(), Type::Int, Value::Int(80)),
        Statement::Val(call("f", vec![Value::Int(1)])),
        Statement::VarAssign("t".to_string(), call("undeclared", vec![])),
        Statement::FnDeclare(
            "h".to_string(),
            block(vec![Statement::Val(call("undeclared", vec![]))]),
            vec![],
            Type::Null,
        ),
        Statement::Val(call("f", vec![Value::Int(2)])),
    ]);
    assert_eq!(backend().compile(&b, &mut ctx).unwrap(), "f(1);f(2);");
    assert!(!ctx.is_defined("t"));
    assert!(!ctx.is_defined("h"));
}

#[test]
fn if_with_else() {
    let mut ctx = registry(&["f"]);
    let then = block(vec![
        Statement::VarDeclare("t".to_string(), Type::Int, Value::Int(80)),
        Statement::Val(call("f", vec![Value::Int(1)])),
    ]);
    let otherwise = block(vec![Statement::Val(call("f", vec![Value::Int(2)]))]);
    let b = block(vec![Statement::If(Value::Bool(true), then, vec![], Some(otherwise))]);
    assert_eq!(backend().compile(&b, &mut ctx).unwrap(), "if(true){f(1);}else{f(2);}");
    assert!(!ctx.is_defined("t"));
}

#[test]
fn local_of_then_block_is_not_visible_in_else_block() {
    let mut ctx = registry(&["f"]);
    let then = block(vec![Statement::VarDeclare("t".to_string(), Type::Int, Value::Int(80))]);
    let b = block(vec![Statement::If(Value::Bool(true), then.clone(), vec![], Some(then.clone()))]);
    assert_eq!(backend().compile(&b, &mut ctx).unwrap(), "if(true){}else{}");
    assert!(!ctx.is_defined("t"));
    let uses_t = block(vec![Statement::Val(call("t", vec![]))]);
    let b = block(vec![Statement::If(Value::Bool(true), then, vec![], Some(uses_t))]);
    let r = backend().compile(&b, &mut ctx);
    assert!(matches!(r, Err(NameRegistryResult::NameNotFoundError(n)) if n == "t"));
}

#[test]
fn if_with_elseif_branches() {
    let mut ctx = registry(&["f", "p"]);
    let body = |n: isize| block(vec![Statement::Val(call("f", vec![Value::Int(n)]))]);
    let b = block(vec![Statement::If(
        call("p", vec![Value::Int(0)]),
        body(1),
        vec![(Value::Bool(false), body(2)), (call("p", vec![]), Block::new())],
        None,
    )]);
    assert_eq!(
        backend().compile(&b, &mut ctx).unwrap(),
        "if(p(0)){f(1);}elseif(false){f(2);}elseif(p()){}"
    );
    let b = block(vec![
        Statement::If(
            Value::Bool(true),
            Block::new(),
            vec![(Value::Bool(true), body(3))],
            Some(body(4)),
        ),
        Statement::Val(call("f", vec![])),
    ]);
    assert_eq!(
        backend().compile(&b, &mut ctx).unwrap(),
        "if(true){}elseif(true){f(3);}else{f(4);}f();"
    );
}

#[test]
fn nested_conditionals() {
    let mut ctx = registry(&["f"]);
    let inner = Statement::If(
        Value::Bool(false),
        block(vec![Statement::Val(call("f", vec![]))]),
        vec![],
        None,
    );
    let b = block(vec![Statement::If(Value::Bool(true), block(vec![inner]), vec![], None)]);
    assert_eq!(backend().compile(&b, &mut ctx).unwrap(), "if(true){if(false){f();}}");
}

#[test]
fn failure_in_a_condition_is_reported() {
    let mut ctx = registry(&["f"]);
    let b = block(vec![Statement::If(call("c", vec![]), Block::new(), vec![], None)]);
    let r = backend().compile(&b, &mut ctx);
    assert!(matches!(r, Err(NameRegistryResult::NameNotFoundError(n)) if n == "c"));
}

#[test]
fn failure_in_a_nested_block_is_reported() {
    let mut ctx = registry(&["f"]);
    let bad = |n: &str| block(vec![Statement::Val(call(n, vec![]))]);
    let b = block(vec![Statement::If(
        Value::Bool(true),
        bad("in_then"),
        vec![],
        Some(bad("in_else")),
    )]);
    let r = backend().compile(&b, &mut ctx);
    assert!(matches!(r, Err(NameRegistryResult::NameNotFoundError(n)) if n == "in_then"));
    let b = block(vec![Statement::If(
        Value::Bool(true),
        Block::new(),
        vec![(Value::Bool(true), Block::new()), (call("in_cond", vec![]), bad("in_body"))],
        Some(bad("in_else")),
    )]);
    let r = backend().compile(&b, &mut ctx);
    assert!(matches!(r, Err(NameRegistryResult::NameNotFoundError(n)) if n == "in_cond"));
    let b = block(vec![Statement::If(
        Value::Bool(true),
        Block::new(),
        vec![],
        Some(bad("in_else")),
    )]);
    let r = backend().compile(&b, &mut ctx);
    assert!(matches!(r, Err(NameRegistryResult::NameNotFoundError(n)) if n == "in_else"));
}

#[test]
fn first_failing_statement_is_reported() {
    let mut ctx = registry(&["f"]);
    let b = block(vec![
        Statement::Val(call("f", vec![])),
        Statement::Val(call("first", vec![])),
        Statement::Val(call("second", vec![])),
    ]);
    let r = backend().compile(&b, &mut ctx);
    assert!(matches!(r, Err(NameRegistryResult::NameNotFoundError(n)) if n == "first"));
}

#[test]
fn compile_leaves_the_registry_as_it_was() {
    let mut ctx = registry(&["f"]);
    let b = block(vec![
        Statement::VarDeclare("v".to_string(), Type::Int, Value::Int(0)),
        Statement::If(
            Value::Bool(true),
            block(vec![Statement::VarDeclare("w".to_string(), Type::Int, Value::Int(0))]),
            vec![],
            None,
        ),
        Statement::Val(call("missing", vec![])),
    ]);
    assert!(backend().compile(&b, &mut ctx).is_err());
    assert!(ctx.is_defined("f"));
    assert!(!ctx.is_defined("v"));
    assert!(!ctx.is_defined("w"));
    assert!(!ctx.is_defined("missing"));
    assert!(matches!(ctx.get("f"), NameRegistryResult::Type(Type::Function(_, _))));
}

#[test]
fn whole_program() {
    let mut b = Block::new();
    b.add(Statement::Val(Value::FnCall(
        "console.log".to_string(),
        vec![Value::Int(69)],
    )));
    let mut ifcode = Block::new();
    ifcode.add(Statement::VarDeclare(
        "t".to_string(),
        Type::Int,
        Value::Int(80),
    ));
    b.add(Statement::If(Value::Bool(true), ifcode.clone(), vec![], Some(ifcode)));
    let mut backend = JavascriptBackend::new(Version::ES6, "out.js");
    let mut name_reg = NameRegistry::new();
    name_reg.add("console.log", Type::Function(vec![Type::Int], Box::new(Type::Null)));
    let o = backend.compile(&b, &mut name_reg);
    assert_eq!(o.unwrap(), "console.log(69);if(true){}else{}");
}

#[test]
fn a_backend_can_be_used_again() {
    let mut js = backend();
    let mut ctx = registry(&["f"]);
    let b = block(vec![Statement::Val(call("f", vec![Value::Int(1)]))]);
    assert_eq!(js.compile(&b, &mut ctx).unwrap(), "f(1);");
    assert_eq!(js.compile(&b, &mut ctx).unwrap(), "f(1);");
}
