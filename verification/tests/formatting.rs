use codercompile::il::{Block, Statement, Type, Value};
use codercompile::text::{
    bool_to_string, byte_to_string, char_to_string, concat_strings, int_to_string, join_strings,
    push_decimal, uint_to_string,
};

fn b(v: Value) -> Box<Value> {
    Box::new(v)
}

#[test]
fn decimal_of_unsigned() {
    assert_eq!(uint_to_string(0), "0");
    assert_eq!(uint_to_string(7), "7");
    assert_eq!(uint_to_string(10), "10");
    assert_eq!(uint_to_string(69), "69");
    assert_eq!(uint_to_string(1002003), "1002003");
    assert_eq!(uint_to_string(usize::MAX), usize::MAX.to_string());
}

#[test]
fn decimal_of_signed() {
    assert_eq!(int_to_string(0), "0");
    assert_eq!(int_to_string(69), "69");
    assert_eq!(int_to_string(-1), "-1");
    assert_eq!(int_to_string(-120), "-120");
    assert_eq!(int_to_string(isize::MAX), isize::MAX.to_string());
    assert_eq!(int_to_string(isize::MIN), isize::MIN.to_string());
}

#[test]
fn push_decimal_appends() {
    let mut s = String::from("n=");
    push_decimal(&mut s, 405);
    assert_eq!(s, "n=405");
    push_decimal(&mut s, 0);
    assert_eq!(s, "n=4050");
    push_decimal(&mut s, u64::MAX);
    assert_eq!(s, "n=405018446744073709551615");
}

#[test]
fn byte_is_two_uppercase_hex_digits() {
    assert_eq!(byte_to_string(0), "00");
    assert_eq!(byte_to_string(9), "09");
    assert_eq!(byte_to_string(10), "0A");
    assert_eq!(byte_to_string(15), "0F");
    assert_eq!(byte_to_string(16), "10");
    assert_eq!(byte_to_string(0xAB), "AB");
    assert_eq!(byte_to_string(255), "FF");
    for x in 0..=255u8 {
        assert_eq!(byte_to_string(x), format!("{:02X}", x));
    }
}

#[test]
fn char_and_bool_text() {
    assert_eq!(char_to_string('x'), "x");
    assert_eq!(char_to_string('\n'), "\n");
    assert_eq!(char_to_string('é'), "é");
    assert_eq!(bool_to_string(true), "true");
    assert_eq!(bool_to_string(false), "false");
}

#[test]
fn join_and_concat() {
    let none: Vec<String> = vec![];
    let one = vec!["a".to_string()];
    let three = vec!["a".to_string(), "".to_string(), "c".to_string()];
    assert_eq!(join_strings(&none, ", "), "");
    assert_eq!(join_strings(&one, ", "), "a");
    assert_eq!(join_strings(&three, ", "), "a, , c");
    assert_eq!(join_strings(&three, ""), "ac");
    assert_eq!(concat_strings(&none), "");
    assert_eq!(concat_strings(&three), "ac");
}

#[test]
fn primitive_types() {
    assert_eq!(Type::Null.to_string(), "Null");
    assert_eq!(Type::Int.to_string(), "Int");
    assert_eq!(Type::Uint.to_string(), "Uint");
    assert_eq!(Type::Byte.to_string(), "Byte");
    assert_eq!(Type::Char.to_string(), "Char");
    assert_eq!(Type::Bool.to_string(), "Bool");
    assert_eq!(Type::List.to_string(), "List");
}

#[test]
fn composite_types() {
    assert_eq!(Type::Array(Box::new(Type::Int)).to_string(), "[Int]");
    assert_eq!(
        Type::Array(Box::new(Type::Array(Box::new(Type::Int)))).to_string(),
        "[[Int]]"
    );
    assert_eq!(Type::Custom("Point".to_string()).to_string(), "Point");
    assert_eq!(Type::Custom(String::new()).to_string(), "");
    assert_eq!(
        Type::Function(vec![], Box::new(Type::Null)).to_string(),
        "(): Null"
    );
    assert_eq!(
        Type::Function(vec![Type::Int], Box::new(Type::Null)).to_string(),
        "(Int): Null"
    );
    assert_eq!(
        Type::Function(
            vec![Type::Int, Type::Array(Box::new(Type::Byte)), Type::Custom("T".to_string())],
            Box::new(Type::Function(vec![Type::Bool], Box::new(Type::Char))),
        )
        .to_string(),
        "(Int, [Byte], T): (Bool): Char"
    );
}

#[test]
fn union_is_written_structurally() {
    assert_eq!(Type::Union(vec![]).to_string(), "Union([])");
    assert_eq!(
        Type::Union(vec![Type::Int, Type::Bool]).to_string(),
        "Union([Int, Bool])"
    );
    let u = Type::Union(vec![
        Type::Array(Box::new(Type::Int)),
        Type::Custom("T".to_string()),
        Type::Function(vec![Type::Int, Type::Uint], Box::new(Type::Null)),
        Type::Union(vec![Type::Char]),
    ]);
    assert_eq!(
        u.to_string(),
        "Union([Array(Int), Custom(\"T\"), Function([Int, Uint], Null), Union([Char])])"
    );
    assert_eq!(u.to_string(), format!("{:?}", u));
    assert_eq!(
        Type::Array(Box::new(Type::Union(vec![Type::Int]))).to_string(),
        "[Union([Int])]"
    );
}

#[test]
fn structural_text_of_types() {
    assert_eq!(Type::Int.debug_string(), "Int");
    assert_eq!(Type::Array(Box::new(Type::Int)).debug_string(), "Array(Int)");
    assert_eq!(Type::Custom("a b".to_string()).debug_string(), "Custom(\"a b\")");
    assert_eq!(
        Type::Function(vec![], Box::new(Type::Null)).debug_string(),
        "Function([], Null)"
    );
    assert_eq!(
        Type::Custom("say \"hi\"".to_string()).debug_string(),
        "Custom(\"say \"hi\"\")"
    );
}

#[test]
fn literal_values() {
    assert_eq!(Value::Int(69).to_string(), "69");
    assert_eq!(Value::Int(-5).to_string(), "-5");
    assert_eq!(Value::Int(isize::MIN).to_string(), isize::MIN.to_string());
    assert_eq!(Value::Uint(0).to_string(), "0");
    assert_eq!(Value::Uint(4000000000).to_string(), "4000000000");
    assert_eq!(Value::Byte(7).to_string(), "07");
    assert_eq!(Value::Byte(0xFE).to_string(), "FE");
    assert_eq!(Value::Char('c').to_string(), "c");
    assert_eq!(Value::Bool(true).to_string(), "true");
    assert_eq!(Value::Bool(false).to_string(), "false");
    assert_eq!(Value::Name("x".to_string()).to_string(), "x");
    assert_eq!(Value::Type(Type::Array(Box::new(Type::Int))).to_string(), "[Int]");
}

#[test]
fn empty_list_is_an_empty_bracket_pair() {
    assert_eq!(Value::List(vec![]).to_string(), "[]");
}

#[test]
fn lists() {
    assert_eq!(Value::List(vec![Value::Int(1)]).to_string(), "[1]");
    assert_eq!(
        Value::List(vec![Value::Int(1), Value::Bool(false), Value::Char('z')]).to_string(),
        "[1, false, z]"
    );
    assert_eq!(
        Value::List(vec![Value::List(vec![]), Value::List(vec![Value::Byte(1), Value::Byte(2)])])
            .to_string(),
        "[[], [01, 02]]"
    );
}

#[test]
fn records() {
    let p = Value::Custom(
        Type::Custom("Point".to_string()),
        vec![("x".to_string(), Value::Int(1)), ("y".to_string(), Value::Int(-2))],
    );
    assert_eq!(p.to_string(), "Point {\nx = 1\ny = -2\n}");
    let e = Value::Custom(Type::Custom("Unit".to_string()), vec![]);
    assert_eq!(e.to_string(), "Unit {\n\n}");
    let nested = Value::Custom(
        Type::Array(Box::new(Type::Int)),
        vec![("inner".to_string(), e)],
    );
    assert_eq!(nested.to_string(), "[Int] {\ninner = Unit {\n\n}\n}");
}

#[test]
fn binary_operators() {
    let l = || b(Value::Name("a".to_string()));
    let r = || b(Value::Int(2));
    assert_eq!(Value::Greater(l(), r()).to_string(), "a > 2");
    assert_eq!(Value::GreaterEqual(l(), r()).to_string(), "a >= 2");
    assert_eq!(Value::Less(l(), r()).to_string(), "a < 2");
    assert_eq!(Value::LessEqual(l(), r()).to_string(), "a <= 2");
    assert_eq!(Value::Equal(l(), r()).to_string(), "a == 2");
    assert_eq!(Value::And(l(), r()).to_string(), "a && 2");
    assert_eq!(Value::Or(l(), r()).to_string(), "a || 2");
    assert_eq!(Value::Add(l(), r()).to_string(), "a + 2");
    assert_eq!(Value::Sub(l(), r()).to_string(), "a - 2");
    assert_eq!(Value::Mul(l(), r()).to_string(), "a * 2");
    assert_eq!(Value::Div(l(), r()).to_string(), "a / 2");
    assert_eq!(Value::Modulo(l(), r()).to_string(), "a % 2");
    assert_eq!(Value::BitwiseAnd(l(), r()).to_string(), "a & 2");
    assert_eq!(Value::BitwiseOr(l(), r()).to_string(), "a | 2");
    assert_eq!(Value::BitwiseXor(l(), r()).to_string(), "a ^ 2");
    assert_eq!(Value::BitwiseShift(l(), r()).to_string(), "a << 2");
    assert_eq!(Value::BitwiseUnshift(l(), r()).to_string(), "a >> 2");
}

#[test]
fn unary_operators_and_nesting() {
    assert_eq!(Value::Not(b(Value::Bool(true))).to_string(), "!true");
    assert_eq!(Value::BitwiseNot(b(Value::Uint(5))).to_string(), "~5");
    let e = Value::Mul(
        b(Value::Add(b(Value::Int(1)), b(Value::Int(2)))),
        b(Value::Not(b(Value::Name("x".to_string())))),
    );
    assert_eq!(e.to_string(), "1 + 2 * !x");
}

#[test]
fn calls() {
    assert_eq!(Value::FnCall("f".to_string(), vec![]).to_string(), "f()");
    assert_eq!(
        Value::FnCall("console.log".to_string(), vec![Value::Int(69)]).to_string(),
        "console.log(69)"
    );
    assert_eq!(
        Value::FnCall(
            "g".to_string(),
            vec![Value::Int(1), Value::FnCall("h".to_string(), vec![Value::Bool(true)])],
        )
        .to_string(),
        "g(1, h(true))"
    );
}

#[test]
fn simple_statements() {
    assert_eq!(Statement::Val(Value::Int(3)).to_string(), "3");
    assert_eq!(
        Statement::VarDeclare("t".to_string(), Type::Int, Value::Int(80)).to_string(),
        "let t: Int = 80"
    );
    assert_eq!(
        Statement::VarAssign("t".to_string(), Value::Bool(false)).to_string(),
        "t = false"
    );
}

#[test]
fn blocks() {
    let mut blk = Block::new();
    assert_eq!(blk.to_string(), "{\n}");
    blk.add(Statement::Val(Value::Int(1)));
    assert_eq!(blk.to_string(), "{\n1\n}");
    blk.add(Statement::VarAssign("x".to_string(), Value::Int(2)));
    assert_eq!(blk.to_string(), "{\n1\nx = 2\n}");
}

#[test]
fn function_declarations() {
    let mut body = Block::new();
    body.add(Statement::Val(Value::Name("a".to_string())));
    let f = Statement::FnDeclare(
        "add".to_string(),
        body,
        vec![("a".to_string(), Type::Int), ("b".to_string(), Type::Array(Box::new(Type::Int)))],
        Type::Bool,
    );
    assert_eq!(f.to_string(), "add(a: Int, b: [Int]): Bool {\na\n}");
    let g = Statement::FnDeclare("g".to_string(), Block::new(), vec![], Type::Null);
    assert_eq!(g.to_string(), "g(): Null {\n}");
}

#[test]
fn conditionals() {
    let mut then = Block::new();
    then.add(Statement::VarDeclare("t".to_string(), Type::Int, Value::Int(80)));
    let only_if = Statement::If(Value::Bool(true), then.clone(), vec![], None);
    assert_eq!(only_if.to_string(), "if ( true ) {\nlet t: Int = 80\n}");
    let with_else = Statement::If(Value::Bool(true), then.clone(), vec![], Some(then.clone()));
    assert_eq!(
        with_else.to_string(),
        "if ( true ) {\nlet t: Int = 80\n}else {\nlet t: Int = 80\n}"
    );
    let full = Statement::If(
        Value::Name("a".to_string()),
        Block::new(),
        vec![(Value::Name("b".to_string()), then), (Value::Bool(false), Block::new())],
        Some(Block::new()),
    );
    assert_eq!(
        full.to_string(),
        "if ( a ) {\n}else if ( b ) {\nlet t: Int = 80\n}else if ( false ) {\n}else {\n}"
    );
}

#[test]
fn whole_program_text() {
    let mut blk = Block::new();
    blk.add(Statement::Val(Value::FnCall(
        "console.log".to_string(),
        vec![Value::Int(69)],
    )));
    let mut ifcode = Block::new();
    ifcode.add(Statement::VarDeclare(
        "t".to_string(),
        Type::Int,
        Value::Int(80),
    ));
    blk.add(Statement::If(Value::Bool(true), ifcode.clone(), vec![], Some(ifcode)));
    assert_eq!(
        blk.to_string(),
        "{\nconsole.log(69)\nif ( true ) {\nlet t: Int = 80\n}else {\nlet t: Int = 80\n}\n}"
    );
}

#[test]
fn formatting_twice_gives_the_same_text() {
    let v = Value::FnCall(
        "f".to_string(),
        vec![
            Value::List(vec![Value::Byte(3), Value::Char('q')]),
            Value::Custom(Type::Custom("P".to_string()), vec![("k".to_string(), Value::Int(-9))]),
        ],
    );
    let first = v.to_string();
    let second = v.to_string();
    assert_eq!(first, second);
    assert_eq!(first, "f([03, q], P {\nk = -9\n})");
    let t = Type::Function(vec![Type::Union(vec![Type::Int])], Box::new(Type::List));
    assert_eq!(t.to_string(), t.to_string());
    assert_eq!(t.to_string(), "(Union([Int])): List");
}

#[test]
fn equal_trees_give_the_same_text() {
    let make = || {
        Statement::If(
            Value::Less(b(Value::Name("i".to_string())), b(Value::Int(10))),
            Block::new(),
            vec![],
            None,
        )
    };
    assert_eq!(make().to_string(), make().to_string());
    let s = make();
    assert_eq!(s.clone().to_string(), s.to_string());
    let v = Value::Add(b(Value::Int(1)), b(Value::List(vec![Value::Uint(2)])));
    assert_eq!(v.clone().to_string(), "1 + [2]");
    let mut blk = Block::new();
    blk.add(s);
    assert_eq!(blk.clone().to_string(), blk.to_string());
}

#[test]
fn block_iterates_in_order() {
    let mut blk = Block::new();
    assert!(blk.iter().next().is_none());
    blk.add(Statement::Val(Value::Int(1)));
    blk.add(Statement::Val(Value::Int(2)));
    blk.add(Statement::VarAssign("x".to_string(), Value::Int(3)));
    assert_eq!(blk.iter().count(), 3);
    let texts: Vec<String> = blk.iter().map(|s| s.to_string()).collect();
    assert_eq!(texts, vec!["1".to_string(), "2".to_string(), "x = 3".to_string()]);
}
