//! The JavaScript backend.

use super::registry::{NameRegistry, NameRegistryResult, NameRegistryResultView};
use super::{
    collect, concat_all, first_failure_at, lemma_collect_all_succeed,
    lemma_collect_first_failure, outcome_view, Backend, Lowered,
};
use crate::il::block::{borrowed_views, branch_views, Block, Statement, StatementView};
use crate::il::value::{value_views, TypeView, Value, ValueView};
use crate::text::{
    bool_text, bool_to_string, byte_to_string, char_to_string, concat, decimal_text,
    hex_byte_text, int_text, int_to_string, join, join_strings, lemma_concat_push, string_views,
    uint_to_string,
};
use vstd::prelude::*;
use vstd::string::*;

verus! {

/// The dialect of the target language.
pub enum Version {
    ES6,
    ES5,
}

/// The backend that lowers the intermediate language to JavaScript.
pub struct JavascriptBackend {
    v: Version,
    filename: String,
}

/// The mathematical value of a [`JavascriptBackend`]: its configuration.
pub struct JavascriptBackendView {
    pub version: Version,
    pub filename: Seq<char>,
}

impl View for JavascriptBackend {
    type V = JavascriptBackendView;

    closed spec fn view(&self) -> JavascriptBackendView {
        JavascriptBackendView { version: self.v, filename: self.filename@ }
    }
}

/// `inner` between `before` and `after`, or the failure of `inner`.
pub open spec fn wrapped(before: Seq<char>, inner: Lowered, after: Seq<char>) -> Lowered {
    match inner {
        Ok(text) => Ok(before + text + after),
        Err(e) => Err(e),
    }
}

/// The target text of an expression under the declared names. A literal is
/// its text, a byte as two uppercase hexadecimal digits. A call needs its
/// name declared; it is the name, then between parentheses its arguments,
/// lowered in order and joined by a comma without a space, and it fails as
/// the first of its arguments that fails. Every other expression lowers to
/// the empty text.
pub open spec fn lower_value(v: ValueView, names: Map<Seq<char>, TypeView>) -> Lowered
    decreases v,
{
    match v {
        ValueView::Int(i) => Ok(int_text(i)),
        ValueView::Uint(u) => Ok(decimal_text(u)),
        ValueView::Byte(b) => Ok(hex_byte_text(b)),
        ValueView::Char(c) => Ok(seq![c]),
        ValueView::Bool(b) => Ok(bool_text(b)),
        ValueView::FnCall(name, args) => if names.contains_key(name) {
            match collect(lower_each_value(args, names)) {
                Ok(parts) => Ok(name + "("@ + join(parts, ","@) + ")"@),
                Err(e) => Err(e),
            }
        } else {
            Err(NameRegistryResultView::NameNotFoundError(name))
        },
        _ => Ok(Seq::empty()),
    }
}

/// What each expression of a sequence lowers to.
pub open spec fn lower_each_value(vs: Seq<ValueView>, names: Map<Seq<char>, TypeView>) -> Seq<
    Lowered,
>
    decreases vs,
{
    Seq::new(
        vs.len(),
        |i: int|
            if 0 <= i < vs.len() {
                lower_value(vs[i], names)
            } else {
                arbitrary()
            },
    )
}

/// The target text of a block: the texts of its statements one after the
/// other, or the failure of the first statement that fails.
pub open spec fn lower_block(b: Seq<StatementView>, names: Map<Seq<char>, TypeView>) -> Lowered
    decreases b, 1int,
{
    concat_all(lower_each_statement(b, names))
}

/// What each statement of a block lowers to.
pub open spec fn lower_each_statement(
    b: Seq<StatementView>,
    names: Map<Seq<char>, TypeView>,
) -> Seq<Lowered>
    decreases b, 0int,
{
    Seq::new(
        b.len(),
        |i: int|
            if 0 <= i < b.len() {
                lower_statement(b[i], names)
            } else {
                arbitrary()
            },
    )
}

/// The target text of a statement. An expression statement is the
/// expression followed by a semicolon. A conditional is its parts one after
/// the other. Every other statement gives the empty text.
pub open spec fn lower_statement(s: StatementView, names: Map<Seq<char>, TypeView>) -> Lowered
    decreases s, 1int,
{
    match s {
        StatementView::Val(v) => wrapped(Seq::empty(), lower_value(v, names), ";"@),
        StatementView::If(_, _, _, _) => concat_all(lower_conditional_parts(s, names)),
        _ => Ok(Seq::empty()),
    }
}

/// The parts of a conditional in order: the `if` branch, each `elseif`
/// branch, and the `else` body between `else{` and `}` where there is one.
/// A nested block is lowered under the names that are declared where the
/// conditional stands: what a block declares ends with the block.
pub open spec fn lower_conditional_parts(
    s: StatementView,
    names: Map<Seq<char>, TypeView>,
) -> Seq<Lowered>
    recommends
        s is If,
    decreases s, 0int,
{
    match s {
        StatementView::If(cond, body, branches, otherwise) => seq![
            lower_branch("if("@, cond, body, names),
        ] + Seq::new(
            branches.len(),
            |i: int|
                if 0 <= i < branches.len() {
                    lower_branch("elseif("@, branches[i].0, branches[i].1, names)
                } else {
                    arbitrary()
                },
        ) + match otherwise {
            Some(b) => seq![wrapped("else{"@, lower_block(b, names), "}"@)],
            None => Seq::empty(),
        },
        _ => Seq::empty(),
    }
}

/// One branch of a conditional: the keyword with its opening parenthesis,
/// the condition, `){`, the body, `}`. The condition is lowered first, and
/// its failure comes before that of the body.
pub open spec fn lower_branch(
    keyword: Seq<char>,
    cond: ValueView,
    body: Seq<StatementView>,
    names: Map<Seq<char>, TypeView>,
) -> Lowered
    decreases body, 2int,
{
    match lower_value(cond, names) {
        Ok(c) => wrapped(keyword + c + "){"@, lower_block(body, names), "}"@),
        Err(e) => Err(e),
    }
}

/// A call of a name that is not declared fails with `NameNotFoundError` of
/// that name, whatever its arguments are.
pub proof fn lemma_undeclared_call_fails(
    name: Seq<char>,
    args: Seq<ValueView>,
    names: Map<Seq<char>, TypeView>,
)
    requires
        !names.contains_key(name),
    ensures
        lower_value(ValueView::FnCall(name, args), names) == Lowered::Err(
            NameRegistryResultView::NameNotFoundError(name),
        ),
{
}

/// A call of a declared name fails exactly as the first of its arguments
/// that fails.
pub proof fn lemma_call_fails_as_first_failing_argument(
    name: Seq<char>,
    args: Seq<ValueView>,
    k: int,
    names: Map<Seq<char>, TypeView>,
)
    requires
        names.contains_key(name),
        first_failure_at(lower_each_value(args, names), k),
    ensures
        lower_value(ValueView::FnCall(name, args), names) == lower_value(args[k], names),
{
    lemma_collect_first_failure(lower_each_value(args, names), k);
}

/// A block fails exactly as the first of its statements that fails: what
/// stands after that statement has no part in the outcome.
pub proof fn lemma_block_fails_as_first_failing_statement(
    b: Seq<StatementView>,
    k: int,
    names: Map<Seq<char>, TypeView>,
)
    requires
        first_failure_at(lower_each_statement(b, names), k),
    ensures
        lower_block(b, names) == lower_statement(b[k], names),
{
    lemma_collect_first_failure(lower_each_statement(b, names), k);
}

/// The empty block lowers to the empty text, whatever names are declared.
pub proof fn lemma_empty_block_lowers_to_empty_text(names: Map<Seq<char>, TypeView>)
    ensures
        lower_block(Seq::empty(), names) == Lowered::Ok(Seq::empty()),
{
    lemma_collect_all_succeed(lower_each_statement(Seq::empty(), names));
    assert(Seq::new(0, |i: int| lower_each_statement(Seq::empty(), names)[i]->Ok_0)
        =~= Seq::<Seq<char>>::empty());
}

/// Whether the first `n` parts all succeed and `text` is their texts one
/// after the other.
spec fn lowered_so_far(parts: Seq<Lowered>, n: int, text: Seq<char>) -> bool {
    &&& 0 <= n <= parts.len()
    &&& forall|j: int| 0 <= j < n ==> (#[trigger] parts[j]) is Ok
    &&& text == concat(Seq::new(n as nat, |j: int| parts[j]->Ok_0))
}

/// Where every part is lowered, the text so far is the text of the whole.
proof fn lemma_all_lowered(parts: Seq<Lowered>, text: Seq<char>)
    requires
        lowered_so_far(parts, parts.len() as int, text),
    ensures
        concat_all(parts) == Lowered::Ok(text),
{
    lemma_collect_all_succeed(parts);
}

/// Appends the text of part `n`, which succeeded, to the text of the parts
/// before it.
fn push_part(res: &mut String, text: &str, Ghost(parts): Ghost<Seq<Lowered>>, Ghost(n): Ghost<int>)
    requires
        lowered_so_far(parts, n, old(res)@),
        n < parts.len(),
        parts[n] == Lowered::Ok(text@),
    ensures
        lowered_so_far(parts, n + 1, final(res)@),
{
    res.append(text);
    proof {
        let before = Seq::new(n as nat, |j: int| parts[j]->Ok_0);
        let after = Seq::new((n + 1) as nat, |j: int| parts[j]->Ok_0);
        assert(before.push(text@) =~= after);
        lemma_concat_push(before, text@);
    }
}

impl JavascriptBackend {
    /// A backend for the given dialect that names `file` as its output.
    pub fn new(v: Version, file: &str) -> (r: JavascriptBackend)
        ensures
            r@ == (JavascriptBackendView { version: v, filename: file@ }),
    {
        JavascriptBackend { v, filename: String::from_str(file) }
    }

    /// Lowers an expression under the names declared in `ctx`. A call of a
    /// name that is not declared fails with `NameNotFoundError` of that
    /// name, and no text comes back.
    pub fn compile_value(&mut self, v: &Value, ctx: &mut NameRegistry) -> (r: Result<
        String,
        NameRegistryResult,
    >)
        ensures
            outcome_view(r) == lower_value(v@, old(ctx)@),
            v@ is FnCall && !old(ctx)@.contains_key(v@->FnCall_0) ==> outcome_view(r)
                == Lowered::Err(NameRegistryResultView::NameNotFoundError(v@->FnCall_0)),
            final(ctx)@ == old(ctx)@,
            final(self)@ == old(self)@,
        decreases v,
    {
        match v {
            Value::Int(i) => Ok(int_to_string(*i)),
            Value::Uint(u) => Ok(uint_to_string(*u)),
            Value::Byte(b) => Ok(byte_to_string(*b)),
            Value::Char(c) => Ok(char_to_string(*c)),
            Value::Bool(b) => Ok(bool_to_string(*b)),
            Value::FnCall(name, args) => {
                if ctx.is_defined(name.as_str()) {
                    match self.compile_values(args, ctx) {
                        Ok(string_args) => {
                            let mut r = name.clone();
                            r.append("(");
                            r.append(join_strings(&string_args, ",").as_str());
                            r.append(")");
                            Ok(r)
                        },
                        Err(e) => Err(e),
                    }
                } else {
                    Err(NameRegistryResult::NameNotFoundError(name.clone()))
                }
            },
            _ => Ok(String::new()),
        }
    }

    /// Lowers the arguments of a call in order, and stops at the first that
    /// fails.
    fn compile_values(&mut self, vs: &Vec<Value>, ctx: &mut NameRegistry) -> (r: Result<
        Vec<String>,
        NameRegistryResult,
    >)
        ensures
            collect(lower_each_value(value_views(vs@), old(ctx)@)) == (match r {
                Ok(parts) => Ok(string_views(parts@)),
                Err(e) => Err(e@),
            }),
            final(ctx)@ == old(ctx)@,
            final(self)@ == old(self)@,
        decreases vs,
    {
        let ghost all = lower_each_value(value_views(vs@), ctx@);
        let mut parts: Vec<String> = Vec::new();
        let mut i: usize = 0;
        while i < vs.len()
            invariant
                i <= vs@.len(),
                parts@.len() == i,
                all == lower_each_value(value_views(vs@), ctx@),
                ctx@ == old(ctx)@,
                self@ == old(self)@,
                forall|j: int| 0 <= j < i ==> (#[trigger] all[j]) == Lowered::Ok(parts@[j]@),
            decreases vs@.len() - i,
        {
            match self.compile_value(&vs[i], ctx) {
                Ok(part) => {
                    parts.push(part);
                },
                Err(e) => {
                    proof {
                        lemma_collect_first_failure(all, i as int);
                    }
                    return Err(e);
                },
            }
            i += 1;
        }
        proof {
            lemma_collect_all_succeed(all);
            assert(string_views(parts@) =~= Seq::new(all.len(), |i: int| all[i]->Ok_0));
        }
        Ok(parts)
    }

    /// Lowers one statement.
    fn compile_statement(&mut self, s: &Statement, ctx: &mut NameRegistry) -> (r: Result<
        String,
        NameRegistryResult,
    >)
        ensures
            outcome_view(r) == lower_statement(s@, old(ctx)@),
            final(ctx)@ == old(ctx)@,
            final(self)@ == old(self)@,
        decreases s@, 1int,
    {
        match s {
            Statement::Val(v) => match self.compile_value(v, ctx) {
                Ok(text) => {
                    let mut r = text;
                    r.append(";");
                    Ok(r)
                },
                Err(e) => Err(e),
            },
            Statement::If(cond, body, branches, otherwise) => {
                let ghost all = lower_conditional_parts(s@, ctx@);
                let mut res = String::new();
                match self.compile_branch("if(", cond, body, ctx) {
                    Ok(head) => push_part(&mut res, head.as_str(), Ghost(all), Ghost(0)),
                    Err(e) => {
                        proof {
                            lemma_collect_first_failure(all, 0);
                        }
                        return Err(e);
                    },
                }
                let mut i: usize = 0;
                while i < branches.len()
                    invariant
                        i <= branches@.len(),
                        s@ is If,
                        s@->If_2 == branch_views(branches@),
                        all == lower_conditional_parts(s@, ctx@),
                        ctx@ == old(ctx)@,
                        self@ == old(self)@,
                        lowered_so_far(all, 1 + i, res@),
                    decreases branches@.len() - i,
                {
                    proof {
                        assert(s@->If_2[i as int] == (
                            branches@[i as int].0@,
                            branches@[i as int].1@,
                        ));
                        assert(all[1 + i] == lower_branch(
                            "elseif("@,
                            branches@[i as int].0@,
                            branches@[i as int].1@,
                            ctx@,
                        ));
                    }
                    match self.compile_branch("elseif(", &branches[i].0, &branches[i].1, ctx) {
                        Ok(text) => push_part(&mut res, text.as_str(), Ghost(all), Ghost(1 + i)),
                        Err(e) => {
                            proof {
                                lemma_collect_first_failure(all, 1 + i);
                            }
                            return Err(e);
                        },
                    }
                    i += 1;
                }
                if let Some(b) = otherwise {
                    let ghost last = 1 + branches@.len();
                    let mut scope = ctx.clone();
                    match self.compile(b, &mut scope) {
                        Ok(text) => {
                            let mut part = String::from_str("else{");
                            part.append(text.as_str());
                            part.append("}");
                            push_part(&mut res, part.as_str(), Ghost(all), Ghost(last as int));
                        },
                        Err(e) => {
                            proof {
                                lemma_collect_first_failure(all, last as int);
                            }
                            return Err(e);
                        },
                    }
                }
                proof {
                    lemma_all_lowered(all, res@);
                }
                Ok(res)
            },
            _ => Ok(String::new()),
        }
    }

    /// Lowers one branch of a conditional. The body is lowered in a scope of
    /// its own, a copy of `ctx`.
    fn compile_branch(
        &mut self,
        keyword: &str,
        cond: &Value,
        body: &Block,
        ctx: &mut NameRegistry,
    ) -> (r: Result<String, NameRegistryResult>)
        ensures
            outcome_view(r) == lower_branch(keyword@, cond@, body@, old(ctx)@),
            final(ctx)@ == old(ctx)@,
            final(self)@ == old(self)@,
        decreases body@, 2int,
    {
        let c = match self.compile_value(cond, ctx) {
            Ok(c) => c,
            Err(e) => {
                return Err(e);
            },
        };
        let mut scope = ctx.clone();
        let text = match self.compile(body, &mut scope) {
            Ok(text) => text,
            Err(e) => {
                return Err(e);
            },
        };
        let mut r = String::from_str(keyword);
        r.append(c.as_str());
        r.append("){");
        r.append(text.as_str());
        r.append("}");
        Ok(r)
    }
}

impl Backend for JavascriptBackend {
    /// Lowers a block under the names declared in `ctx`: the statements in
    /// order, and nothing after the first that fails.
    fn compile(&mut self, b: &Block, ctx: &mut NameRegistry) -> (r: Result<
        String,
        NameRegistryResult,
    >)
        ensures
            outcome_view(r) == lower_block(b@, old(ctx)@),
            final(self)@ == old(self)@,
        decreases b@, 1int,
    {
        let ghost all = lower_each_statement(b@, ctx@);
        let mut res = String::new();
        for statement in it: b.iter()
            invariant
                borrowed_views(it.seq()) == b@,
                all == lower_each_statement(b@, ctx@),
                ctx@ == old(ctx)@,
                self@ == old(self)@,
                lowered_so_far(all, it.index(), res@),
        {
            assert(statement@ == b@[it.index()]);
            match self.compile_statement(statement, ctx) {
                Ok(text) => push_part(&mut res, text.as_str(), Ghost(all), Ghost(it.index())),
                Err(e) => {
                    proof {
                        lemma_collect_first_failure(all, it.index());
                    }
                    return Err(e);
                },
            }
        }
        proof {
            lemma_all_lowered(all, res@);
        }
        Ok(res)
    }
}

} // verus!
