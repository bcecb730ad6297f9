//! Statements and blocks of the intermediate language, and their canonical
//! text.

use super::value::{
    clone_named_types, named_type_views, type_text, value_text, Type, TypeView, Value, ValueView,
};
use crate::text::{concat, concat_strings, join, join_strings, string_views};
use std::slice::Iter;
use vstd::prelude::*;
use vstd::std_specs::iter::IteratorSpec;
use vstd::string::*;

verus! {

/// An ordered sequence of statements. The order is the order of execution
/// and of emission.
#[derive(Debug)]
pub struct Block {
    v: Vec<Statement>,
}

/// A statement of the intermediate language. A statement owns the blocks
/// under it.
#[derive(Debug)]
pub enum Statement {
    /// Condition, body, `else if` branches in order, optional `else` body.
    If(Value, Block, Vec<(Value, Block)>, Option<Block>),
    /// Name, body, parameters in order, return type.
    FnDeclare(String, Block, Vec<(String, Type)>, Type),
    /// An expression evaluated for its effect.
    Val(Value),
    /// Name, declared type, initializer.
    VarDeclare(String, Type, Value),
    /// Name, new value.
    VarAssign(String, Value),
}

/// The mathematical value of a [`Statement`]. A block is the sequence of
/// its statements.
pub enum StatementView {
    If(
        ValueView,
        Seq<StatementView>,
        Seq<(ValueView, Seq<StatementView>)>,
        Option<Seq<StatementView>>,
    ),
    FnDeclare(Seq<char>, Seq<StatementView>, Seq<(Seq<char>, TypeView)>, TypeView),
    Val(ValueView),
    VarDeclare(Seq<char>, TypeView, ValueView),
    VarAssign(Seq<char>, ValueView),
}

/// The values of a sequence of statements, in order.
pub open spec fn statement_views(ss: Seq<Statement>) -> Seq<StatementView>
    decreases ss,
{
    Seq::new(
        ss.len(),
        |i: int|
            if 0 <= i < ss.len() {
                ss[i].model()
            } else {
                arbitrary()
            },
    )
}

/// The values of a sequence of borrowed statements, in order.
pub open spec fn borrowed_views(ss: Seq<&Statement>) -> Seq<StatementView> {
    Seq::new(ss.len(), |i: int| ss[i]@)
}

/// The values of a sequence of `else if` branches, in order.
pub open spec fn branch_views(branches: Seq<(Value, Block)>) -> Seq<
    (ValueView, Seq<StatementView>),
>
    decreases branches,
{
    Seq::new(
        branches.len(),
        |i: int|
            if 0 <= i < branches.len() {
                (branches[i].0@, branches[i].1.model())
            } else {
                arbitrary()
            },
    )
}

impl Block {
    /// The statements of this block; `self@` is the same thing.
    pub closed spec fn model(&self) -> Seq<StatementView>
        decreases self,
    {
        statement_views(self.v@)
    }
}

impl Statement {
    /// The value of this statement; `self@` is the same thing.
    pub open spec fn model(&self) -> StatementView
        decreases self,
    {
        match self {
            Statement::If(cond, body, branches, otherwise) => StatementView::If(
                cond@,
                body.model(),
                branch_views(branches@),
                match otherwise {
                    Some(b) => Some(b.model()),
                    None => None,
                },
            ),
            Statement::FnDeclare(name, body, params, ret) => StatementView::FnDeclare(
                name@,
                body.model(),
                named_type_views(params@),
                ret@,
            ),
            Statement::Val(v) => StatementView::Val(v@),
            Statement::VarDeclare(name, t, v) => StatementView::VarDeclare(name@, t@, v@),
            Statement::VarAssign(name, v) => StatementView::VarAssign(name@, v@),
        }
    }
}

impl View for Block {
    type V = Seq<StatementView>;

    open spec fn view(&self) -> Seq<StatementView> {
        self.model()
    }
}

impl View for Statement {
    type V = StatementView;

    open spec fn view(&self) -> StatementView {
        self.model()
    }
}

/// The canonical text of a block: an opening brace on a line of its own,
/// then each statement on a line of its own, then the closing brace.
pub open spec fn block_text(b: Seq<StatementView>) -> Seq<char>
    decreases b, 1int,
{
    "{\n"@ + concat(statement_lines(b)) + "}"@
}

/// The canonical text of each statement of a block, each followed by a line
/// break.
pub open spec fn statement_lines(b: Seq<StatementView>) -> Seq<Seq<char>>
    decreases b, 0int,
{
    Seq::new(
        b.len(),
        |i: int|
            if 0 <= i < b.len() {
                statement_text(b[i]) + "\n"@
            } else {
                arbitrary()
            },
    )
}

/// The canonical text of a statement.
pub open spec fn statement_text(s: StatementView) -> Seq<char>
    decreases s, 0int,
{
    match s {
        StatementView::If(cond, body, branches, otherwise) => "if ( "@ + value_text(cond) + " ) "@
            + block_text(body) + concat(branch_texts(branches)) + match otherwise {
            Some(b) => "else "@ + block_text(b),
            None => Seq::empty(),
        },
        StatementView::FnDeclare(name, body, params, ret) => name + "("@ + join(
            param_texts(params),
            ", "@,
        ) + "): "@ + type_text(ret) + " "@ + block_text(body),
        StatementView::Val(v) => value_text(v),
        StatementView::VarDeclare(name, t, v) => "let "@ + name + ": "@ + type_text(t) + " = "@
            + value_text(v),
        StatementView::VarAssign(name, v) => name + " = "@ + value_text(v),
    }
}

/// The canonical text of each `else if` branch.
pub open spec fn branch_texts(branches: Seq<(ValueView, Seq<StatementView>)>) -> Seq<Seq<char>>
    decreases branches, 0int,
{
    Seq::new(
        branches.len(),
        |i: int|
            if 0 <= i < branches.len() {
                "else if ( "@ + value_text(branches[i].0) + " ) "@ + block_text(branches[i].1)
            } else {
                arbitrary()
            },
    )
}

/// Each parameter as `name: type`.
pub open spec fn param_texts(params: Seq<(Seq<char>, TypeView)>) -> Seq<Seq<char>> {
    Seq::new(params.len(), |i: int| params[i].0 + ": "@ + type_text(params[i].1))
}

impl Block {
    /// An empty block.
    pub fn new() -> (b: Block)
        ensures
            b@ == Seq::<StatementView>::empty(),
    {
        Block { v: Vec::new() }
    }

    /// Appends a statement at the end of the block.
    pub fn add(&mut self, s: Statement)
        ensures
            final(self)@ == old(self)@.push(s@),
    {
        self.v.push(s);
    }

    /// An iterator over the statements, first to last.
    pub fn iter(&self) -> (it: Iter<'_, Statement>)
        ensures
            it.obeys_prophetic_iter_laws(),
            it.decrease() is Some,
            it.initial_value_relation(&it),
            borrowed_views(it.remaining()) == self@,
    {
        self.v.iter()
    }
}

impl Block {
    /// The canonical text of this block.
    pub fn to_string(&self) -> (r: String)
        ensures
            r@ == block_text(self@),
        decreases self,
    {
        let lines = statements_to_lines(&self.v);
        let mut r = String::from_str("{\n");
        r.append(concat_strings(&lines).as_str());
        r.append("}");
        r
    }
}

fn statements_to_lines(ss: &Vec<Statement>) -> (r: Vec<String>)
    ensures
        string_views(r@) == statement_lines(statement_views(ss@)),
    decreases ss,
{
    let mut r: Vec<String> = Vec::new();
    let mut i: usize = 0;
    while i < ss.len()
        invariant
            i <= ss@.len(),
            r@.len() == i,
            forall|j: int| 0 <= j < i ==> r@[j]@ == statement_text(ss@[j]@) + "\n"@,
        decreases ss@.len() - i,
    {
        let mut line = ss[i].to_string();
        line.append("\n");
        r.push(line);
        i += 1;
    }
    r
}

impl Statement {
    /// The canonical text of this statement.
    pub fn to_string(&self) -> (r: String)
        ensures
            r@ == statement_text(self@),
        decreases self,
    {
        match self {
            Statement::If(cond, body, branches, otherwise) => {
                let parts = branches_to_strings(branches);
                let mut r = String::from_str("if ( ");
                r.append(cond.to_string().as_str());
                r.append(" ) ");
                r.append(body.to_string().as_str());
                r.append(concat_strings(&parts).as_str());
                match otherwise {
                    Some(b) => {
                        r.append("else ");
                        r.append(b.to_string().as_str());
                    },
                    None => {},
                }
                r
            },
            Statement::FnDeclare(name, body, params, ret) => {
                let parts = params_to_strings(params);
                let mut r = name.clone();
                r.append("(");
                r.append(join_strings(&parts, ", ").as_str());
                r.append("): ");
                r.append(ret.to_string().as_str());
                r.append(" ");
                r.append(body.to_string().as_str());
                r
            },
            Statement::Val(v) => v.to_string(),
            Statement::VarDeclare(name, t, v) => {
                let mut r = String::from_str("let ");
                r.append(name.as_str());
                r.append(": ");
                r.append(t.to_string().as_str());
                r.append(" = ");
                r.append(v.to_string().as_str());
                r
            },
            Statement::VarAssign(name, v) => {
                let mut r = name.clone();
                r.append(" = ");
                r.append(v.to_string().as_str());
                r
            },
        }
    }
}

fn branches_to_strings(branches: &Vec<(Value, Block)>) -> (r: Vec<String>)
    ensures
        string_views(r@) == branch_texts(branch_views(branches@)),
    decreases branches,
{
    let mut r: Vec<String> = Vec::new();
    let mut i: usize = 0;
    while i < branches.len()
        invariant
            i <= branches@.len(),
            r@.len() == i,
            forall|j: int|
                0 <= j < i ==> r@[j]@ == "else if ( "@ + value_text(branches@[j].0@) + " ) "@
                    + block_text(branches@[j].1@),
        decreases branches@.len() - i,
    {
        let mut part = String::from_str("else if ( ");
        part.append(branches[i].0.to_string().as_str());
        part.append(" ) ");
        part.append(branches[i].1.to_string().as_str());
        r.push(part);
        i += 1;
    }
    r
}

fn params_to_strings(params: &Vec<(String, Type)>) -> (r: Vec<String>)
    ensures
        string_views(r@) == param_texts(named_type_views(params@)),
{
    let mut r: Vec<String> = Vec::new();
    let mut i: usize = 0;
    while i < params.len()
        invariant
            i <= params@.len(),
            r@.len() == i,
            forall|j: int|
                0 <= j < i ==> r@[j]@ == params@[j].0@ + ": "@ + type_text(params@[j].1@),
        decreases params@.len() - i,
    {
        let mut part = params[i].0.clone();
        part.append(": ");
        part.append(params[i].1.to_string().as_str());
        r.push(part);
        i += 1;
    }
    r
}

impl Clone for Block {
    fn clone(&self) -> (r: Block)
        ensures
            r@ == self@,
        decreases self,
    {
        Block { v: clone_statements(&self.v) }
    }
}

fn clone_statements(ss: &Vec<Statement>) -> (r: Vec<Statement>)
    ensures
        statement_views(r@) == statement_views(ss@),
    decreases ss,
{
    let mut r: Vec<Statement> = Vec::new();
    let mut i: usize = 0;
    while i < ss.len()
        invariant
            i <= ss@.len(),
            r@.len() == i,
            forall|j: int| 0 <= j < i ==> r@[j]@ == ss@[j]@,
        decreases ss@.len() - i,
    {
        r.push(ss[i].clone());
        i += 1;
    }
    r
}

impl Clone for Statement {
    fn clone(&self) -> (r: Statement)
        ensures
            r@ == self@,
        decreases self,
    {
        match self {
            Statement::If(cond, body, branches, otherwise) => Statement::If(
                cond.clone(),
                body.clone(),
                clone_branches(branches),
                match otherwise {
                    Some(b) => Some(b.clone()),
                    None => None,
                },
            ),
            Statement::FnDeclare(name, body, params, ret) => Statement::FnDeclare(
                name.clone(),
                body.clone(),
                clone_named_types(params),
                ret.clone(),
            ),
            Statement::Val(v) => Statement::Val(v.clone()),
            Statement::VarDeclare(name, t, v) => Statement::VarDeclare(
                name.clone(),
                t.clone(),
                v.clone(),
            ),
            Statement::VarAssign(name, v) => Statement::VarAssign(name.clone(), v.clone()),
        }
    }
}

fn clone_branches(branches: &Vec<(Value, Block)>) -> (r: Vec<(Value, Block)>)
    ensures
        branch_views(r@) == branch_views(branches@),
    decreases branches,
{
    let mut r: Vec<(Value, Block)> = Vec::new();
    let mut i: usize = 0;
    while i < branches.len()
        invariant
            i <= branches@.len(),
            r@.len() == i,
            forall|j: int|
                0 <= j < i ==> r@[j].0@ == branches@[j].0@ && r@[j].1@ == branches@[j].1@,
        decreases branches@.len() - i,
    {
        r.push((branches[i].0.clone(), branches[i].1.clone()));
        i += 1;
    }
    r
}

} // verus!
