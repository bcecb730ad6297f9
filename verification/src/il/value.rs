//! Types and expressions of the intermediate language, and their canonical
//! text.

use crate::text::{
    bool_text, bool_to_string, byte_to_string, char_to_string, decimal_text, hex_byte_text,
    int_text, int_to_string, join, join_strings, string_views, uint_to_string,
};
use vstd::prelude::*;
use vstd::std_specs::cmp::PartialEqSpecImpl;
use vstd::string::*;

verus! {

/// A type of the intermediate language.
#[derive(Debug)]
pub enum Type {
    Null,
    Int,
    Uint,
    Byte,
    Char,
    Bool,
    List,
    Array(Box<Type>),
    Custom(String),
    Function(Vec<Type>, Box<Type>),
    Union(Vec<Type>),
}

/// The mathematical value of a [`Type`]: the same tree over sequences.
pub enum TypeView {
    Null,
    Int,
    Uint,
    Byte,
    Char,
    Bool,
    List,
    Array(Box<TypeView>),
    Custom(Seq<char>),
    Function(Seq<TypeView>, Box<TypeView>),
    Union(Seq<TypeView>),
}

/// The values of a sequence of types, in order.
pub open spec fn type_views(ts: Seq<Type>) -> Seq<TypeView>
    decreases ts,
{
    Seq::new(
        ts.len(),
        |i: int|
            if 0 <= i < ts.len() {
                ts[i].model()
            } else {
                arbitrary()
            },
    )
}

impl Type {
    /// The value of this type; `self@` is the same thing.
    pub open spec fn model(&self) -> TypeView
        decreases self,
    {
        match self {
            Type::Null => TypeView::Null,
            Type::Int => TypeView::Int,
            Type::Uint => TypeView::Uint,
            Type::Byte => TypeView::Byte,
            Type::Char => TypeView::Char,
            Type::Bool => TypeView::Bool,
            Type::List => TypeView::List,
            Type::Array(element) => TypeView::Array(Box::new(element.model())),
            Type::Custom(name) => TypeView::Custom(name@),
            Type::Function(params, ret) => TypeView::Function(
                type_views(params@),
                Box::new(ret.model()),
            ),
            Type::Union(members) => TypeView::Union(type_views(members@)),
        }
    }
}

impl View for Type {
    type V = TypeView;

    open spec fn view(&self) -> TypeView {
        self.model()
    }
}

/// The structural text of a type, in which every constructor is spelled
/// out: `Array(Int)`, `Custom("name")`, `Function([Int], Null)`,
/// `Union([Int, Bool])`. A custom name stands between double quotes as it
/// is, with nothing escaped.
pub open spec fn type_debug_text(t: TypeView) -> Seq<char>
    decreases t,
{
    match t {
        TypeView::Null => "Null"@,
        TypeView::Int => "Int"@,
        TypeView::Uint => "Uint"@,
        TypeView::Byte => "Byte"@,
        TypeView::Char => "Char"@,
        TypeView::Bool => "Bool"@,
        TypeView::List => "List"@,
        TypeView::Array(element) => "Array("@ + type_debug_text(*element) + ")"@,
        TypeView::Custom(name) => "Custom(\""@ + name + "\")"@,
        TypeView::Function(params, ret) => "Function(["@ + join(type_debug_texts(params), ", "@)
            + "], "@ + type_debug_text(*ret) + ")"@,
        TypeView::Union(members) => "Union(["@ + join(type_debug_texts(members), ", "@) + "])"@,
    }
}

/// The structural text of each type of a sequence.
pub open spec fn type_debug_texts(ts: Seq<TypeView>) -> Seq<Seq<char>>
    decreases ts,
{
    Seq::new(
        ts.len(),
        |i: int|
            if 0 <= i < ts.len() {
                type_debug_text(ts[i])
            } else {
                arbitrary()
            },
    )
}

/// The canonical text of a type. An array is its element between square
/// brackets, a custom type is its name, a function is `(A, B): R`; every
/// other type is written structurally.
pub open spec fn type_text(t: TypeView) -> Seq<char>
    decreases t,
{
    match t {
        TypeView::Array(element) => "["@ + type_text(*element) + "]"@,
        TypeView::Custom(name) => name,
        TypeView::Function(params, ret) => "("@ + join(type_texts(params), ", "@) + "): "@
            + type_text(*ret),
        _ => type_debug_text(t),
    }
}

/// The canonical text of each type of a sequence.
pub open spec fn type_texts(ts: Seq<TypeView>) -> Seq<Seq<char>>
    decreases ts,
{
    Seq::new(
        ts.len(),
        |i: int|
            if 0 <= i < ts.len() {
                type_text(ts[i])
            } else {
                arbitrary()
            },
    )
}

/// The canonical text depends on the tree alone: types with the same value
/// have the same text, however often and wherever they are formatted.
pub proof fn lemma_type_text_of_equal_trees(a: Type, b: Type)
    requires
        a@ == b@,
    ensures
        type_text(a@) == type_text(b@),
        type_debug_text(a@) == type_debug_text(b@),
{
}

impl Clone for Type {
    fn clone(&self) -> (r: Type)
        ensures
            r@ == self@,
        decreases self,
    {
        match self {
            Type::Null => Type::Null,
            Type::Int => Type::Int,
            Type::Uint => Type::Uint,
            Type::Byte => Type::Byte,
            Type::Char => Type::Char,
            Type::Bool => Type::Bool,
            Type::List => Type::List,
            Type::Array(element) => Type::Array(Box::new((**element).clone())),
            Type::Custom(name) => Type::Custom(name.clone()),
            Type::Function(params, ret) => Type::Function(
                clone_types(params),
                Box::new((**ret).clone()),
            ),
            Type::Union(members) => Type::Union(clone_types(members)),
        }
    }
}

fn clone_types(ts: &Vec<Type>) -> (r: Vec<Type>)
    ensures
        type_views(r@) == type_views(ts@),
    decreases ts,
{
    let mut r: Vec<Type> = Vec::new();
    let mut i: usize = 0;
    while i < ts.len()
        invariant
            i <= ts@.len(),
            r@.len() == i,
            forall|j: int| 0 <= j < i ==> r@[j]@ == ts@[j]@,
        decreases ts@.len() - i,
    {
        r.push(ts[i].clone());
        i += 1;
    }
    r
}

impl PartialEq for Type {
    /// Equality by structure: two types are equal exactly if they are the
    /// same tree.
    fn eq(&self, other: &Type) -> (r: bool)
        decreases self,
    {
        match (self, other) {
            (Type::Null, Type::Null) => true,
            (Type::Int, Type::Int) => true,
            (Type::Uint, Type::Uint) => true,
            (Type::Byte, Type::Byte) => true,
            (Type::Char, Type::Char) => true,
            (Type::Bool, Type::Bool) => true,
            (Type::List, Type::List) => true,
            (Type::Array(a), Type::Array(b)) => (**a).eq(&**b),
            (Type::Custom(a), Type::Custom(b)) => *a == *b,
            (Type::Function(pa, ra), Type::Function(pb, rb)) => same_types(pa, pb) && (**ra).eq(
                &**rb,
            ),
            (Type::Union(a), Type::Union(b)) => same_types(a, b),
            _ => false,
        }
    }
}

impl PartialEqSpecImpl for Type {
    open spec fn obeys_eq_spec() -> bool {
        true
    }

    open spec fn eq_spec(&self, other: &Type) -> bool {
        self.model() == other.model()
    }
}

impl Eq for Type {

}

fn same_types(a: &Vec<Type>, b: &Vec<Type>) -> (r: bool)
    ensures
        r == (type_views(a@) == type_views(b@)),
    decreases a,
{
    if a.len() != b.len() {
        assert(type_views(a@).len() != type_views(b@).len());
        return false;
    }
    let mut i: usize = 0;
    while i < a.len()
        invariant
            i <= a@.len(),
            a@.len() == b@.len(),
            forall|j: int| 0 <= j < i ==> a@[j]@ == b@[j]@,
        decreases a@.len() - i,
    {
        if !a[i].eq(&b[i]) {
            assert(type_views(a@)[i as int] != type_views(b@)[i as int]);
            return false;
        }
        i += 1;
    }
    assert(type_views(a@) =~= type_views(b@));
    true
}

/// The values of a sequence of names with their types, in order.
pub open spec fn named_type_views(items: Seq<(String, Type)>) -> Seq<(Seq<char>, TypeView)> {
    Seq::new(items.len(), |i: int| (items[i].0@, items[i].1@))
}

/// A copy of a sequence of names with their types.
pub(crate) fn clone_named_types(items: &Vec<(String, Type)>) -> (r: Vec<(String, Type)>)
    ensures
        named_type_views(r@) == named_type_views(items@),
{
    let mut r: Vec<(String, Type)> = Vec::new();
    let mut i: usize = 0;
    while i < items.len()
        invariant
            i <= items@.len(),
            r@.len() == i,
            forall|j: int| 0 <= j < i ==> r@[j].0@ == items@[j].0@ && r@[j].1@ == items@[j].1@,
        decreases items@.len() - i,
    {
        r.push((items[i].0.clone(), items[i].1.clone()));
        i += 1;
    }
    r
}

impl Type {
    /// The canonical text of this type.
    pub fn to_string(&self) -> (r: String)
        ensures
            r@ == type_text(self@),
        decreases self,
    {
        match self {
            Type::Array(element) => {
                let mut r = String::from_str("[");
                r.append(element.to_string().as_str());
                r.append("]");
                r
            },
            Type::Custom(name) => name.clone(),
            Type::Function(params, ret) => {
                let parts = types_to_strings(params);
                let mut r = String::from_str("(");
                r.append(join_strings(&parts, ", ").as_str());
                r.append("): ");
                r.append(ret.to_string().as_str());
                r
            },
            _ => self.debug_string(),
        }
    }

    /// The structural text of this type.
    pub fn debug_string(&self) -> (r: String)
        ensures
            r@ == type_debug_text(self@),
        decreases self,
    {
        match self {
            Type::Null => String::from_str("Null"),
            Type::Int => String::from_str("Int"),
            Type::Uint => String::from_str("Uint"),
            Type::Byte => String::from_str("Byte"),
            Type::Char => String::from_str("Char"),
            Type::Bool => String::from_str("Bool"),
            Type::List => String::from_str("List"),
            Type::Array(element) => {
                let mut r = String::from_str("Array(");
                r.append(element.debug_string().as_str());
                r.append(")");
                r
            },
            Type::Custom(name) => {
                let mut r = String::from_str("Custom(\"");
                r.append(name.as_str());
                r.append("\")");
                r
            },
            Type::Function(params, ret) => {
                let parts = types_to_debug_strings(params);
                let mut r = String::from_str("Function([");
                r.append(join_strings(&parts, ", ").as_str());
                r.append("], ");
                r.append(ret.debug_string().as_str());
                r.append(")");
                r
            },
            Type::Union(members) => {
                let parts = types_to_debug_strings(members);
                let mut r = String::from_str("Union([");
                r.append(join_strings(&parts, ", ").as_str());
                r.append("])");
                r
            },
        }
    }
}

fn types_to_strings(ts: &Vec<Type>) -> (r: Vec<String>)
    ensures
        string_views(r@) == type_texts(type_views(ts@)),
    decreases ts,
{
    let mut r: Vec<String> = Vec::new();
    let mut i: usize = 0;
    while i < ts.len()
        invariant
            i <= ts@.len(),
            r@.len() == i,
            forall|j: int| 0 <= j < i ==> r@[j]@ == type_text(ts@[j]@),
        decreases ts@.len() - i,
    {
        r.push(ts[i].to_string());
        i += 1;
    }
    r
}

fn types_to_debug_strings(ts: &Vec<Type>) -> (r: Vec<String>)
    ensures
        string_views(r@) == type_debug_texts(type_views(ts@)),
    decreases ts,
{
    let mut r: Vec<String> = Vec::new();
    let mut i: usize = 0;
    while i < ts.len()
        invariant
            i <= ts@.len(),
            r@.len() == i,
            forall|j: int| 0 <= j < i ==> r@[j]@ == type_debug_text(ts@[j]@),
        decreases ts@.len() - i,
    {
        r.push(ts[i].debug_string());
        i += 1;
    }
    r
}

/// An expression of the intermediate language. Every expression owns its
/// operands: the whole is a tree.
#[derive(Debug)]
pub enum Value {
    Int(isize),
    Uint(usize),
    Byte(u8),
    Char(char),
    Bool(bool),
    List(Vec<Value>),
    Custom(Type, Vec<(String, Value)>),
    Type(Type),
    Name(String),
    Greater(Box<Value>, Box<Value>),
    GreaterEqual(Box<Value>, Box<Value>),
    Less(Box<Value>, Box<Value>),
    LessEqual(Box<Value>, Box<Value>),
    Equal(Box<Value>, Box<Value>),
    And(Box<Value>, Box<Value>),
    Or(Box<Value>, Box<Value>),
    Not(Box<Value>),
    Add(Box<Value>, Box<Value>),
    Sub(Box<Value>, Box<Value>),
    Mul(Box<Value>, Box<Value>),
    Div(Box<Value>, Box<Value>),
    Modulo(Box<Value>, Box<Value>),
    BitwiseAnd(Box<Value>, Box<Value>),
    BitwiseOr(Box<Value>, Box<Value>),
    BitwiseXor(Box<Value>, Box<Value>),
    BitwiseNot(Box<Value>),
    BitwiseShift(Box<Value>, Box<Value>),
    BitwiseUnshift(Box<Value>, Box<Value>),
    FnCall(String, Vec<Value>),
}

/// The operators that take two operands.
pub enum BinaryOp {
    Greater,
    GreaterEqual,
    Less,
    LessEqual,
    Equal,
    And,
    Or,
    Add,
    Sub,
    Mul,
    Div,
    Modulo,
    BitwiseAnd,
    BitwiseOr,
    BitwiseXor,
    BitwiseShift,
    BitwiseUnshift,
}

/// The operators that take one operand.
pub enum UnaryOp {
    Not,
    BitwiseNot,
}

impl BinaryOp {
    /// The sign that stands between the two operands.
    pub open spec fn symbol(self) -> Seq<char> {
        match self {
            BinaryOp::Greater => ">"@,
            BinaryOp::GreaterEqual => ">="@,
            BinaryOp::Less => "<"@,
            BinaryOp::LessEqual => "<="@,
            BinaryOp::Equal => "=="@,
            BinaryOp::And => "&&"@,
            BinaryOp::Or => "||"@,
            BinaryOp::Add => "+"@,
            BinaryOp::Sub => "-"@,
            BinaryOp::Mul => "*"@,
            BinaryOp::Div => "/"@,
            BinaryOp::Modulo => "%"@,
            BinaryOp::BitwiseAnd => "&"@,
            BinaryOp::BitwiseOr => "|"@,
            BinaryOp::BitwiseXor => "^"@,
            BinaryOp::BitwiseShift => "<<"@,
            BinaryOp::BitwiseUnshift => ">>"@,
        }
    }
}

impl UnaryOp {
    /// The sign that stands before the operand.
    pub open spec fn symbol(self) -> Seq<char> {
        match self {
            UnaryOp::Not => "!"@,
            UnaryOp::BitwiseNot => "~"@,
        }
    }
}

/// The mathematical value of a [`Value`]. The operators are gathered under
/// `Binary` and `Unary`; everything else keeps its shape.
pub enum ValueView {
    Int(int),
    Uint(nat),
    Byte(u8),
    Char(char),
    Bool(bool),
    List(Seq<ValueView>),
    Custom(TypeView, Seq<(Seq<char>, ValueView)>),
    Type(TypeView),
    Name(Seq<char>),
    Binary(BinaryOp, Box<ValueView>, Box<ValueView>),
    Unary(UnaryOp, Box<ValueView>),
    FnCall(Seq<char>, Seq<ValueView>),
}

/// The values of a sequence of expressions, in order.
pub open spec fn value_views(vs: Seq<Value>) -> Seq<ValueView>
    decreases vs,
{
    Seq::new(
        vs.len(),
        |i: int|
            if 0 <= i < vs.len() {
                vs[i].model()
            } else {
                arbitrary()
            },
    )
}

/// The values of a sequence of named fields, in order.
pub open spec fn field_views(fields: Seq<(String, Value)>) -> Seq<(Seq<char>, ValueView)>
    decreases fields,
{
    Seq::new(
        fields.len(),
        |i: int|
            if 0 <= i < fields.len() {
                (fields[i].0@, fields[i].1.model())
            } else {
                arbitrary()
            },
    )
}

impl Value {
    /// The value of this expression; `self@` is the same thing.
    pub open spec fn model(&self) -> ValueView
        decreases self,
    {
        match self {
            Value::Int(i) => ValueView::Int(*i as int),
            Value::Uint(u) => ValueView::Uint(*u as nat),
            Value::Byte(b) => ValueView::Byte(*b),
            Value::Char(c) => ValueView::Char(*c),
            Value::Bool(b) => ValueView::Bool(*b),
            Value::List(items) => ValueView::List(value_views(items@)),
            Value::Custom(t, fields) => ValueView::Custom(t@, field_views(fields@)),
            Value::Type(t) => ValueView::Type(t@),
            Value::Name(name) => ValueView::Name(name@),
            Value::Greater(l, r) => binary_view(BinaryOp::Greater, l.model(), r.model()),
            Value::GreaterEqual(l, r) => binary_view(BinaryOp::GreaterEqual, l.model(), r.model()),
            Value::Less(l, r) => binary_view(BinaryOp::Less, l.model(), r.model()),
            Value::LessEqual(l, r) => binary_view(BinaryOp::LessEqual, l.model(), r.model()),
            Value::Equal(l, r) => binary_view(BinaryOp::Equal, l.model(), r.model()),
            Value::And(l, r) => binary_view(BinaryOp::And, l.model(), r.model()),
            Value::Or(l, r) => binary_view(BinaryOp::Or, l.model(), r.model()),
            Value::Not(x) => unary_view(UnaryOp::Not, x.model()),
            Value::Add(l, r) => binary_view(BinaryOp::Add, l.model(), r.model()),
            Value::Sub(l, r) => binary_view(BinaryOp::Sub, l.model(), r.model()),
            Value::Mul(l, r) => binary_view(BinaryOp::Mul, l.model(), r.model()),
            Value::Div(l, r) => binary_view(BinaryOp::Div, l.model(), r.model()),
            Value::Modulo(l, r) => binary_view(BinaryOp::Modulo, l.model(), r.model()),
            Value::BitwiseAnd(l, r) => binary_view(BinaryOp::BitwiseAnd, l.model(), r.model()),
            Value::BitwiseOr(l, r) => binary_view(BinaryOp::BitwiseOr, l.model(), r.model()),
            Value::BitwiseXor(l, r) => binary_view(BinaryOp::BitwiseXor, l.model(), r.model()),
            Value::BitwiseNot(x) => unary_view(UnaryOp::BitwiseNot, x.model()),
            Value::BitwiseShift(l, r) => binary_view(BinaryOp::BitwiseShift, l.model(), r.model()),
            Value::BitwiseUnshift(l, r) => binary_view(
                BinaryOp::BitwiseUnshift,
                l.model(),
                r.model(),
            ),
            Value::FnCall(name, args) => ValueView::FnCall(name@, value_views(args@)),
        }
    }
}

/// The application of a binary operator.
pub open spec fn binary_view(op: BinaryOp, l: ValueView, r: ValueView) -> ValueView {
    ValueView::Binary(op, Box::new(l), Box::new(r))
}

/// The application of a unary operator.
pub open spec fn unary_view(op: UnaryOp, x: ValueView) -> ValueView {
    ValueView::Unary(op, Box::new(x))
}

impl View for Value {
    type V = ValueView;

    open spec fn view(&self) -> ValueView {
        self.model()
    }
}

impl Clone for Value {
    fn clone(&self) -> (r: Value)
        ensures
            r@ == self@,
        decreases self,
    {
        match self {
            Value::Int(i) => Value::Int(*i),
            Value::Uint(u) => Value::Uint(*u),
            Value::Byte(b) => Value::Byte(*b),
            Value::Char(c) => Value::Char(*c),
            Value::Bool(b) => Value::Bool(*b),
            Value::List(items) => Value::List(clone_values(items)),
            Value::Custom(t, fields) => Value::Custom(t.clone(), clone_fields(fields)),
            Value::Type(t) => Value::Type(t.clone()),
            Value::Name(name) => Value::Name(name.clone()),
            Value::Greater(l, r) => Value::Greater(
                Box::new((**l).clone()),
                Box::new((**r).clone()),
            ),
            Value::GreaterEqual(l, r) => Value::GreaterEqual(
                Box::new((**l).clone()),
                Box::new((**r).clone()),
            ),
            Value::Less(l, r) => Value::Less(
                Box::new((**l).clone()),
                Box::new((**r).clone()),
            ),
            Value::LessEqual(l, r) => Value::LessEqual(
                Box::new((**l).clone()),
                Box::new((**r).clone()),
            ),
            Value::Equal(l, r) => Value::Equal(
                Box::new((**l).clone()),
                Box::new((**r).clone()),
            ),
            Value::And(l, r) => Value::And(
                Box::new((**l).clone()),
                Box::new((**r).clone()),
            ),
            Value::Or(l, r) => Value::Or(
                Box::new((**l).clone()),
                Box::new((**r).clone()),
            ),
            Value::Not(x) => Value::Not(Box::new((**x).clone())),
            Value::Add(l, r) => Value::Add(
                Box::new((**l).clone()),
                Box::new((**r).clone()),
            ),
            Value::Sub(l, r) => Value::Sub(
                Box::new((**l).clone()),
                Box::new((**r).clone()),
            ),
            Value::Mul(l, r) => Value::Mul(
                Box::new((**l).clone()),
                Box::new((**r).clone()),
            ),
            Value::Div(l, r) => Value::Div(
                Box::new((**l).clone()),
                Box::new((**r).clone()),
            ),
            Value::Modulo(l, r) => Value::Modulo(
                Box::new((**l).clone()),
                Box::new((**r).clone()),
            ),
            Value::BitwiseAnd(l, r) => Value::BitwiseAnd(
                Box::new((**l).clone()),
                Box::new((**r).clone()),
            ),
            Value::BitwiseOr(l, r) => Value::BitwiseOr(
                Box::new((**l).clone()),
                Box::new((**r).clone()),
            ),
            Value::BitwiseXor(l, r) => Value::BitwiseXor(
                Box::new((**l).clone()),
                Box::new((**r).clone()),
            ),
            Value::BitwiseNot(x) => Value::BitwiseNot(Box::new((**x).clone())),
            Value::BitwiseShift(l, r) => Value::BitwiseShift(
                Box::new((**l).clone()),
                Box::new((**r).clone()),
            ),
            Value::BitwiseUnshift(l, r) => Value::BitwiseUnshift(
                Box::new((**l).clone()),
                Box::new((**r).clone()),
            ),
            Value::FnCall(name, args) => Value::FnCall(name.clone(), clone_values(args)),
        }
    }
}

fn clone_values(vs: &Vec<Value>) -> (r: Vec<Value>)
    ensures
        value_views(r@) == value_views(vs@),
    decreases vs,
{
    let mut r: Vec<Value> = Vec::new();
    let mut i: usize = 0;
    while i < vs.len()
        invariant
            i <= vs@.len(),
            r@.len() == i,
            forall|j: int| 0 <= j < i ==> r@[j]@ == vs@[j]@,
        decreases vs@.len() - i,
    {
        r.push(vs[i].clone());
        i += 1;
    }
    r
}

fn clone_fields(fields: &Vec<(String, Value)>) -> (r: Vec<(String, Value)>)
    ensures
        field_views(r@) == field_views(fields@),
    decreases fields,
{
    let mut r: Vec<(String, Value)> = Vec::new();
    let mut i: usize = 0;
    while i < fields.len()
        invariant
            i <= fields@.len(),
            r@.len() == i,
            forall|j: int|
                0 <= j < i ==> r@[j].0@ == fields@[j].0@ && r@[j].1@ == fields@[j].1@,
        decreases fields@.len() - i,
    {
        r.push((fields[i].0.clone(), fields[i].1.clone()));
        i += 1;
    }
    r
}

/// The canonical text of an expression. Lists and arguments are joined with
/// `", "`, the fields of a record stand one per line between braces, and an
/// operator stands between its operands with one space on each side.
/// Nothing is escaped and nothing is put in parentheses.
pub open spec fn value_text(v: ValueView) -> Seq<char>
    decreases v,
{
    match v {
        ValueView::Int(i) => int_text(i),
        ValueView::Uint(u) => decimal_text(u),
        ValueView::Byte(b) => hex_byte_text(b),
        ValueView::Char(c) => seq![c],
        ValueView::Bool(b) => bool_text(b),
        ValueView::List(items) => "["@ + join(value_texts(items), ", "@) + "]"@,
        ValueView::Custom(t, fields) => type_text(t) + " {\n"@ + join(field_texts(fields), "\n"@)
            + "\n}"@,
        ValueView::Type(t) => type_text(t),
        ValueView::Name(name) => name,
        ValueView::Binary(op, l, r) => infix_text(value_text(*l), op.symbol(), value_text(*r)),
        ValueView::Unary(op, x) => op.symbol() + value_text(*x),
        ValueView::FnCall(name, args) => name + "("@ + join(value_texts(args), ", "@) + ")"@,
    }
}

/// Two operands with their operator between them.
pub open spec fn infix_text(l: Seq<char>, op: Seq<char>, r: Seq<char>) -> Seq<char> {
    l + " "@ + op + " "@ + r
}

/// The canonical text of each expression of a sequence.
pub open spec fn value_texts(vs: Seq<ValueView>) -> Seq<Seq<char>>
    decreases vs,
{
    Seq::new(
        vs.len(),
        |i: int|
            if 0 <= i < vs.len() {
                value_text(vs[i])
            } else {
                arbitrary()
            },
    )
}

/// Each field of a record as `name = value`.
pub open spec fn field_texts(fields: Seq<(Seq<char>, ValueView)>) -> Seq<Seq<char>>
    decreases fields,
{
    Seq::new(
        fields.len(),
        |i: int|
            if 0 <= i < fields.len() {
                fields[i].0 + " = "@ + value_text(fields[i].1)
            } else {
                arbitrary()
            },
    )
}

/// The canonical text depends on the tree alone: expressions with the same
/// value have the same text, however often and wherever they are formatted.
pub proof fn lemma_value_text_of_equal_trees(a: Value, b: Value)
    requires
        a@ == b@,
    ensures
        value_text(a@) == value_text(b@),
{
}

fn infix(l: String, op: &str, r: String) -> (out: String)
    ensures
        out@ == infix_text(l@, op@, r@),
{
    let mut out = l;
    out.append(" ");
    out.append(op);
    out.append(" ");
    out.append(r.as_str());
    out
}

fn prefix(op: &str, x: String) -> (out: String)
    ensures
        out@ == op@ + x@,
{
    let mut out = String::from_str(op);
    out.append(x.as_str());
    out
}

impl Value {
    /// The canonical text of this expression.
    pub fn to_string(&self) -> (r: String)
        ensures
            r@ == value_text(self@),
        decreases self,
    {
        match self {
            Value::Int(i) => int_to_string(*i),
            Value::Uint(u) => uint_to_string(*u),
            Value::Byte(b) => byte_to_string(*b),
            Value::Char(c) => char_to_string(*c),
            Value::Bool(b) => bool_to_string(*b),
            Value::List(items) => {
                let parts = values_to_strings(items);
                let mut r = String::from_str("[");
                r.append(join_strings(&parts, ", ").as_str());
                r.append("]");
                r
            },
            Value::Custom(t, fields) => {
                let parts = fields_to_strings(fields);
                let mut r = t.to_string();
                r.append(" {\n");
                r.append(join_strings(&parts, "\n").as_str());
                r.append("\n}");
                r
            },
            Value::Type(t) => t.to_string(),
            Value::Name(name) => name.clone(),
            Value::Greater(l, r) => infix(l.to_string(), ">", r.to_string()),
            Value::GreaterEqual(l, r) => infix(l.to_string(), ">=", r.to_string()),
            Value::Less(l, r) => infix(l.to_string(), "<", r.to_string()),
            Value::LessEqual(l, r) => infix(l.to_string(), "<=", r.to_string()),
            Value::Equal(l, r) => infix(l.to_string(), "==", r.to_string()),
            Value::And(l, r) => infix(l.to_string(), "&&", r.to_string()),
            Value::Or(l, r) => infix(l.to_string(), "||", r.to_string()),
            Value::Not(x) => prefix("!", x.to_string()),
            Value::Add(l, r) => infix(l.to_string(), "+", r.to_string()),
            Value::Sub(l, r) => infix(l.to_string(), "-", r.to_string()),
            Value::Mul(l, r) => infix(l.to_string(), "*", r.to_string()),
            Value::Div(l, r) => infix(l.to_string(), "/", r.to_string()),
            Value::Modulo(l, r) => infix(l.to_string(), "%", r.to_string()),
            Value::BitwiseAnd(l, r) => infix(l.to_string(), "&", r.to_string()),
            Value::BitwiseOr(l, r) => infix(l.to_string(), "|", r.to_string()),
            Value::BitwiseXor(l, r) => infix(l.to_string(), "^", r.to_string()),
            Value::BitwiseNot(x) => prefix("~", x.to_string()),
            Value::BitwiseShift(l, r) => infix(l.to_string(), "<<", r.to_string()),
            Value::BitwiseUnshift(l, r) => infix(l.to_string(), ">>", r.to_string()),
            Value::FnCall(name, args) => {
                let parts = values_to_strings(args);
                let mut r = name.clone();
                r.append("(");
                r.append(join_strings(&parts, ", ").as_str());
                r.append(")");
                r
            },
        }
    }
}

fn values_to_strings(vs: &Vec<Value>) -> (r: Vec<String>)
    ensures
        string_views(r@) == value_texts(value_views(vs@)),
    decreases vs,
{
    let mut r: Vec<String> = Vec::new();
    let mut i: usize = 0;
    while i < vs.len()
        invariant
            i <= vs@.len(),
            r@.len() == i,
            forall|j: int| 0 <= j < i ==> r@[j]@ == value_text(vs@[j]@),
        decreases vs@.len() - i,
    {
        r.push(vs[i].to_string());
        i += 1;
    }
    r
}

fn fields_to_strings(fields: &Vec<(String, Value)>) -> (r: Vec<String>)
    ensures
        string_views(r@) == field_texts(field_views(fields@)),
    decreases fields,
{
    let mut r: Vec<String> = Vec::new();
    let mut i: usize = 0;
    while i < fields.len()
        invariant
            i <= fields@.len(),
            r@.len() == i,
            forall|j: int|
                0 <= j < i ==> r@[j]@ == fields@[j].0@ + " = "@ + value_text(fields@[j].1@),
        decreases fields@.len() - i,
    {
        let mut part = fields[i].0.clone();
        part.append(" = ");
        part.append(fields[i].1.to_string().as_str());
        r.push(part);
        i += 1;
    }
    r
}

} // verus!
