//! The syntax tree that the parser produces, and its mathematical model.
//!
//! Every executable node type has a view (`@`) into a model type built from
//! `Seq`s, so that the parser's contracts can state exactly which tree a rule
//! yields.
use vstd::prelude::*;
use crate::parser::str_eq;

verus! {

broadcast use {vstd::seq::axiom_seq_subrange_decreases, vstd::std_specs::vec::axiom_vec_decreases_to_view};

/// A literal value.
#[derive(Debug, PartialEq)]
pub enum Prim {
    I64(i64),
    Bool(bool),
    Str(String),
}

/// An application of a named function to positional arguments.
#[derive(Debug, PartialEq)]
pub struct Call {
    pub func_name: String,
    pub args: Vec<Expr>,
}

/// A value-producing term: a literal, a name reference or a call.
#[derive(Debug, PartialEq)]
pub enum Expr {
    Prim(Prim),
    Name(String),
    Call(Call),
}

/// Introduces a new typed variable.
#[derive(Debug, PartialEq)]
pub struct Bind {
    pub id: String,
    pub ty: String,
    pub expr: Expr,
}

/// Gives an existing variable a new value.
#[derive(Debug, PartialEq)]
pub struct Assign {
    pub name: String,
    pub expr: Expr,
}

/// An if / elsif / else chain: (condition, body) pairs in source order. An
/// `else` body is the last pair, with the literal `true` as its condition.
#[derive(Debug, PartialEq)]
pub struct Branch {
    pub paths: Vec<(Expr, Vec<Instr>)>,
}

/// A body to repeat, without a condition.
#[derive(Debug, PartialEq)]
pub struct Loop {
    pub body: Vec<Instr>,
}

/// A bare control-flow marker statement.
#[derive(Debug, Clone, Copy, PartialEq, Eq)]
pub enum Keyword {
    Break,
    Ellipsis,
}

/// One unit of executable syntax.
#[derive(Debug, PartialEq)]
pub enum Instr {
    Expr(Expr),
    Bind(Bind),
    MutBind(Bind),
    Assign(Assign),
    Branch(Branch),
    Loop(Loop),
    Keyword(Keyword),
}

/// A function's signature: (parameter name, type name) pairs and the return
/// type name.
#[derive(Debug, PartialEq)]
pub struct Kind {
    pub params: Vec<(String, String)>,
    pub ret: String,
}

/// A named, typed routine: its signature and its body.
#[derive(Debug, PartialEq)]
pub struct Func {
    pub kind: Kind,
    pub body: Vec<Instr>,
}

/// A top-level definition.
#[derive(Debug, PartialEq)]
pub enum Decl {
    Func(Func),
}

/// A whole program: its declarations with their names, in source order.
/// Where a name occurs twice, the later declaration is the one it maps to.
#[derive(Debug, PartialEq)]
pub struct AST {
    pub decls: Vec<(String, Decl)>,
}

// ---------------------------------------------------------------------------
// The model.

/// Model of a literal.
pub enum PrimV {
    I64(i64),
    Bool(bool),
    Str(Seq<char>),
}

/// Model of an expression; a call is its callee's name and its arguments.
pub enum ExprV {
    Prim(PrimV),
    Name(Seq<char>),
    Call(Seq<char>, Seq<ExprV>),
}

/// Model of a binding.
pub struct BindV {
    pub id: Seq<char>,
    pub ty: Seq<char>,
    pub expr: ExprV,
}

/// Model of a statement; an assignment is its target's name and its value.
pub enum InstrV {
    Expr(ExprV),
    Bind(BindV),
    MutBind(BindV),
    Assign(Seq<char>, ExprV),
    Branch(Seq<(ExprV, Seq<InstrV>)>),
    Loop(Seq<InstrV>),
    Keyword(Keyword),
}

/// Model of a signature.
pub struct KindV {
    pub params: Seq<(Seq<char>, Seq<char>)>,
    pub ret: Seq<char>,
}

/// Model of a function declaration.
pub struct FuncV {
    pub kind: KindV,
    pub body: Seq<InstrV>,
}

pub open spec fn view_prim(p: Prim) -> PrimV {
    match p {
        Prim::I64(v) => PrimV::I64(v),
        Prim::Bool(b) => PrimV::Bool(b),
        Prim::Str(s) => PrimV::Str(s@),
    }
}

pub open spec fn view_expr(e: Expr) -> ExprV
    decreases e,
{
    match e {
        Expr::Prim(p) => ExprV::Prim(view_prim(p)),
        Expr::Name(n) => ExprV::Name(n@),
        Expr::Call(c) => ExprV::Call(c.func_name@, view_exprs(c.args@)),
    }
}

pub open spec fn view_exprs(es: Seq<Expr>) -> Seq<ExprV>
    decreases es,
{
    if es.len() == 0 {
        Seq::empty()
    } else {
        seq![view_expr(es[0])] + view_exprs(es.subrange(1, es.len() as int))
    }
}

pub open spec fn view_bind(b: Bind) -> BindV {
    BindV { id: b.id@, ty: b.ty@, expr: view_expr(b.expr) }
}

pub open spec fn view_instr(i: Instr) -> InstrV
    decreases i,
{
    match i {
        Instr::Expr(e) => InstrV::Expr(view_expr(e)),
        Instr::Bind(b) => InstrV::Bind(view_bind(b)),
        Instr::MutBind(b) => InstrV::MutBind(view_bind(b)),
        Instr::Assign(a) => InstrV::Assign(a.name@, view_expr(a.expr)),
        Instr::Branch(b) => InstrV::Branch(view_paths(b.paths@)),
        Instr::Loop(l) => InstrV::Loop(view_instrs(l.body@)),
        Instr::Keyword(k) => InstrV::Keyword(k),
    }
}

pub open spec fn view_instrs(is: Seq<Instr>) -> Seq<InstrV>
    decreases is,
{
    if is.len() == 0 {
        Seq::empty()
    } else {
        seq![view_instr(is[0])] + view_instrs(is.subrange(1, is.len() as int))
    }
}

pub open spec fn view_paths(ps: Seq<(Expr, Vec<Instr>)>) -> Seq<(ExprV, Seq<InstrV>)>
    decreases ps,
{
    if ps.len() == 0 {
        Seq::empty()
    } else {
        seq![(view_expr(ps[0].0), view_instrs(ps[0].1@))] + view_paths(
            ps.subrange(1, ps.len() as int),
        )
    }
}

pub open spec fn view_params(ps: Seq<(String, String)>) -> Seq<(Seq<char>, Seq<char>)> {
    Seq::new(ps.len(), |i: int| (ps[i].0@, ps[i].1@))
}

pub open spec fn view_kind(k: Kind) -> KindV {
    KindV { params: view_params(k.params@), ret: k.ret@ }
}

pub open spec fn view_func(f: Func) -> FuncV {
    FuncV { kind: view_kind(f.kind), body: view_instrs(f.body@) }
}

pub open spec fn view_decls(ds: Seq<(String, Decl)>) -> Seq<(Seq<char>, FuncV)> {
    Seq::new(
        ds.len(),
        |i: int|
            match ds[i].1 {
                Decl::Func(f) => (ds[i].0@, view_func(f)),
            },
    )
}

/// The mapping from names to declarations that a program denotes: where a
/// name occurs more than once, the last of its declarations.
pub open spec fn decl_map(ds: Seq<(Seq<char>, FuncV)>) -> Map<Seq<char>, FuncV>
    decreases ds.len(),
{
    if ds.len() == 0 {
        Map::empty()
    } else {
        decl_map(ds.drop_last()).insert(ds.last().0, ds.last().1)
    }
}

proof fn lemma_decl_map_after(ds: Seq<(Seq<char>, FuncV)>, i: int, k: Seq<char>)
    requires
        0 <= i <= ds.len(),
        forall|j: int| i <= j < ds.len() ==> (#[trigger] ds[j]).0 != k,
    ensures
        decl_map(ds).contains_key(k) == decl_map(ds.take(i)).contains_key(k),
        decl_map(ds).contains_key(k) ==> decl_map(ds)[k] == decl_map(ds.take(i))[k],
    decreases ds.len() - i,
{
    if i == ds.len() {
        assert(ds.take(i) =~= ds);
    } else {
        let front = ds.drop_last();
        assert(front.take(i) =~= ds.take(i));
        assert forall|j: int| i <= j < front.len() implies (#[trigger] front[j]).0 != k by {
            assert(front[j] == ds[j]);
        }
        lemma_decl_map_after(front, i, k);
    }
}

pub proof fn lemma_view_exprs_cons(e: Expr, rest: Seq<Expr>)
    ensures
        view_exprs(seq![e] + rest) == seq![view_expr(e)] + view_exprs(rest),
{
    assert((seq![e] + rest).subrange(1, rest.len() + 1 as int) =~= rest);
}

pub proof fn lemma_view_instrs_cons(i: Instr, rest: Seq<Instr>)
    ensures
        view_instrs(seq![i] + rest) == seq![view_instr(i)] + view_instrs(rest),
{
    assert((seq![i] + rest).subrange(1, rest.len() + 1 as int) =~= rest);
}

pub proof fn lemma_view_paths_cons(p: (Expr, Vec<Instr>), rest: Seq<(Expr, Vec<Instr>)>)
    ensures
        view_paths(seq![p] + rest) == seq![(view_expr(p.0), view_instrs(p.1@))] + view_paths(rest),
{
    assert((seq![p] + rest).subrange(1, rest.len() + 1 as int) =~= rest);
}

pub proof fn lemma_view_paths_concat(a: Seq<(Expr, Vec<Instr>)>, b: Seq<(Expr, Vec<Instr>)>)
    ensures
        view_paths(a + b) == view_paths(a) + view_paths(b),
    decreases a.len(),
{
    if a.len() == 0 {
        assert(a + b =~= b);
        assert(view_paths(a) + view_paths(b) =~= view_paths(b));
    } else {
        let t = a.subrange(1, a.len() as int);
        lemma_view_paths_concat(t, b);
        assert(a + b =~= seq![a[0]] + (t + b));
        assert(a =~= seq![a[0]] + t);
        lemma_view_paths_cons(a[0], t + b);
        lemma_view_paths_cons(a[0], t);
        assert(view_paths(a + b) =~= view_paths(a) + view_paths(b));
    }
}

impl AST {
    /// The declaration that `name` maps to: the last one of that name.
    pub fn get(&self, name: &str) -> (r: Option<&Decl>)
        ensures
            r is Some == decl_map(self@).contains_key(name@),
            r matches Some(d) ==> d@ == decl_map(self@)[name@],
    {
        let ghost ds = self@;
        let mut i = self.decls.len();
        while i > 0
            invariant
                i <= self.decls@.len(),
                ds == view_decls(self.decls@),
                forall|j: int| i <= j < ds.len() ==> (#[trigger] ds[j]).0 != name@,
            decreases i,
        {
            if str_eq(self.decls[i - 1].0.as_str(), name) {
                proof {
                    let k = i as int;
                    lemma_decl_map_after(ds, k, name@);
                    assert(ds.take(k).drop_last() =~= ds.take(k - 1));
                }
                return Some(&self.decls[i - 1].1);
            }
            i -= 1;
        }
        proof {
            lemma_decl_map_after(ds, 0, name@);
            assert(ds.take(0) =~= Seq::<(Seq<char>, FuncV)>::empty());
        }
        None
    }
}

impl View for Prim {
    type V = PrimV;

    open spec fn view(&self) -> PrimV {
        view_prim(*self)
    }
}

impl View for Expr {
    type V = ExprV;

    open spec fn view(&self) -> ExprV {
        view_expr(*self)
    }
}

impl View for Keyword {
    type V = Keyword;

    open spec fn view(&self) -> Keyword {
        *self
    }
}

impl View for Instr {
    type V = InstrV;

    open spec fn view(&self) -> InstrV {
        view_instr(*self)
    }
}

impl View for Branch {
    type V = Seq<(ExprV, Seq<InstrV>)>;

    open spec fn view(&self) -> Seq<(ExprV, Seq<InstrV>)> {
        view_paths(self.paths@)
    }
}

impl View for Loop {
    type V = Seq<InstrV>;

    open spec fn view(&self) -> Seq<InstrV> {
        view_instrs(self.body@)
    }
}

impl View for Kind {
    type V = KindV;

    open spec fn view(&self) -> KindV {
        view_kind(*self)
    }
}

impl View for Decl {
    type V = FuncV;

    open spec fn view(&self) -> FuncV {
        match *self {
            Decl::Func(f) => view_func(f),
        }
    }
}

impl View for AST {
    type V = Seq<(Seq<char>, FuncV)>;

    /// The declarations with their names, in source order.
    open spec fn view(&self) -> Seq<(Seq<char>, FuncV)> {
        view_decls(self.decls@)
    }
}

} // verus!
