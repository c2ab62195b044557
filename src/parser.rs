//! The parser: one function per grammar rule, each proved to compute exactly
//! what its rule in `grammar` states.
use vstd::prelude::*;
use crate::ast::{
    Prim, Call, Expr, Kind, Keyword, Bind, Assign, Instr, Branch, Loop, view_exprs, view_params,
    view_instrs, view_paths, lemma_view_exprs_cons, lemma_view_instrs_cons, lemma_view_paths_cons,
    lemma_view_paths_concat, Decl, Func, AST, view_decls,
};
use crate::grammar::{
    CharClass, in_class, run_len, skip_class, ms, sp, p_tag, p_ws_tag, p_newline, p_binder,
    is_reserved, p_name, p_i64, sign_len, p_prim, p_string, p_name_expr, p_call, p_args,
    p_paren_atom, p_atom, p_paren, p_expr, lemma_run_len_bound, p_name_typed, p_param, p_params,
    p_kind, p_keyword, p_assign, p_bind, p_body, p_instrs, p_ws_instr, p_instr, p_guarded, p_elsifs,
    p_else, p_branch, p_loop, p_func, p_decls, p_program, program_failure, p_eol_comment,
    find_close, p_inline_comment, skip_filler,
};

verus! {

/// A rule did not match. `input` is the input that the rule was given (for
/// `ast`, the input at the declaration that failed).
#[derive(Debug, PartialEq)]
pub struct ParseError<'a> {
    pub input: &'a str,
}

/// What a rule returns: the input left after it and what it recognised, or
/// the failure.
pub type PResult<'a, T> = Result<(&'a str, T), ParseError<'a>>;

/// `r` is the outcome that the rule's model `m` gives on input `s`.
pub open spec fn outcome<'a, T: View>(
    r: PResult<'a, T>,
    s: Seq<char>,
    m: Option<(Seq<char>, T::V)>,
) -> bool {
    match m {
        Some((rest, v)) => r matches Ok((rr, vv)) && rr@ == rest && vv@ == v,
        None => r matches Err(e) && e.input@ == s,
    }
}

/// On success, the input left is shorter than `s`.
pub open spec fn shrinks<'a, T>(r: PResult<'a, T>, s: Seq<char>) -> bool {
    r matches Ok((rr, _)) ==> rr@.len() < s.len()
}

/// On success, the input left is no longer than `s`.
pub open spec fn within<'a, T>(r: PResult<'a, T>, s: Seq<char>) -> bool {
    r matches Ok((rr, _)) ==> rr@.len() <= s.len()
}

fn class_has(c: char, k: CharClass) -> (r: bool)
    ensures
        r == in_class(c, k),
{
    match k {
        CharClass::Multispace => c == ' ' || c == '\t' || c == '\r' || c == '\n',
        CharClass::Space => c == ' ' || c == '\t',
        CharClass::Ident => ('a' <= c && c <= 'z') || ('A' <= c && c <= 'Z') || c == '_' || (
        '0' <= c && c <= '9'),
        CharClass::Digit => '0' <= c && c <= '9',
        CharClass::NotQuote => c != '"',
        CharClass::NotNewline => c != '\n' && c != '\r',
    }
}

/// Length of the longest prefix of `s` in class `k`.
fn run(s: &str, k: CharClass) -> (n: usize)
    ensures
        n == run_len(s@, k),
        n <= s@.len(),
{
    let len = s.unicode_len();
    let mut i: usize = 0;
    assert(s@.skip(0) =~= s@);
    while i < len && class_has(s.get_char(i), k)
        invariant
            i <= len,
            len == s@.len(),
            run_len(s@, k) == i + run_len(s@.skip(i as int), k),
        decreases len - i,
    {
        assert(s@.skip(i as int).drop_first() =~= s@.skip(i + 1));
        i += 1;
    }
    i
}

/// `s` without its longest prefix in class `k`.
fn skip_run<'a>(s: &'a str, k: CharClass) -> (r: &'a str)
    ensures
        r@ == skip_class(s@, k),
        r@.len() <= s@.len(),
{
    let n = run(s, k);
    s.substring_char(n, s.unicode_len())
}

fn skip_ms<'a>(s: &'a str) -> (r: &'a str)
    ensures
        r@ == ms(s@),
        r@.len() <= s@.len(),
{
    skip_run(s, CharClass::Multispace)
}

fn skip_sp<'a>(s: &'a str) -> (r: &'a str)
    ensures
        r@ == sp(s@),
        r@.len() <= s@.len(),
{
    skip_run(s, CharClass::Space)
}

/// Whether `s` starts with the character `c`.
fn starts_with_char(s: &str, c: char) -> (r: bool)
    ensures
        r == (s@.len() > 0 && s@[0] == c),
{
    s.unicode_len() > 0 && s.get_char(0) == c
}

/// The literal `t` at the front of `s`.
fn tag<'a>(s: &'a str, t: &str) -> (r: Option<&'a str>)
    ensures
        r is Some == p_tag(s@, t@) is Some,
        r matches Some(x) ==> Some(x@) == p_tag(s@, t@) && x@.len() == s@.len() - t@.len(),
{
    let n = s.unicode_len();
    let m = t.unicode_len();
    if m > n {
        return None;
    }
    let mut i: usize = 0;
    while i < m
        invariant
            i <= m <= n,
            n == s@.len(),
            m == t@.len(),
            forall|j: int| 0 <= j < i ==> s@[j] == t@[j],
        decreases m - i,
    {
        if s.get_char(i) != t.get_char(i) {
            assert(s@.take(m as int)[i as int] != t@[i as int]);
            return None;
        }
        i += 1;
    }
    assert(s@.take(m as int) =~= t@);
    Some(s.substring_char(m, n))
}

/// The literal `t`, then any whitespace.
fn ws_tag<'a>(s: &'a str, t: &str) -> (r: Option<&'a str>)
    ensures
        r is Some == p_ws_tag(s@, t@) is Some,
        r matches Some(x) ==> Some(x@) == p_ws_tag(s@, t@) && x@.len() <= s@.len() - t@.len(),
{
    match tag(s, t) {
        Some(rest) => Some(skip_ms(rest)),
        None => None,
    }
}

/// A line feed.
fn newline<'a>(s: &'a str) -> (r: Option<&'a str>)
    ensures
        r is Some == p_newline(s@) is Some,
        r matches Some(x) ==> Some(x@) == p_newline(s@),
{
    if starts_with_char(s, '\n') {
        Some(s.substring_char(1, s.unicode_len()))
    } else {
        None
    }
}

/// A binder symbol, `~` or `=`, then any whitespace.
fn binder<'a>(s: &'a str) -> (r: Option<&'a str>)
    ensures
        r is Some == p_binder(s@) is Some,
        r matches Some(x) ==> Some(x@) == p_binder(s@) && x@.len() < s@.len(),
{
    proof {
        reveal_strlit("~");
        reveal_strlit("=");
    }
    match ws_tag(s, "~") {
        Some(r) => Some(r),
        None => ws_tag(s, "="),
    }
}

/// Equality of two strings, character by character.
pub(crate) fn str_eq(a: &str, b: &str) -> (r: bool)
    ensures
        r == (a@ == b@),
{
    let n = a.unicode_len();
    if n != b.unicode_len() {
        return false;
    }
    let mut i: usize = 0;
    while i < n
        invariant
            i <= n,
            n == a@.len(),
            n == b@.len(),
            forall|j: int| 0 <= j < i ==> a@[j] == b@[j],
        decreases n - i,
    {
        if a.get_char(i) != b.get_char(i) {
            return false;
        }
        i += 1;
    }
    assert(a@ =~= b@);
    true
}

fn is_reserved_word(w: &str) -> (r: bool)
    ensures
        r == is_reserved(w@),
{
    str_eq(w, "let") || str_eq(w, "end") || str_eq(w, "true") || str_eq(w, "false") || str_eq(
        w,
        "if",
    ) || str_eq(w, "then") || str_eq(w, "else") || str_eq(w, "loop") || str_eq(w, "break")
}

/// An identifier: a letter or `_`, then letters, digits and `_`; a reserved
/// word is refused.
pub fn name<'a>(s: &'a str) -> (r: PResult<'a, &'a str>)
    ensures
        outcome(r, s@, p_name(s@)),
        shrinks(r, s@),
{
    let len = s.unicode_len();
    if len > 0 {
        let c = s.get_char(0);
        if ('a' <= c && c <= 'z') || ('A' <= c && c <= 'Z') || c == '_' {
            let n = run(s, CharClass::Ident);
            let w = s.substring_char(0, n);
            assert(w@ =~= s@.take(n as int));
            if !is_reserved_word(w) {
                return Ok((s.substring_char(n, len), w));
            }
        }
    }
    Err(ParseError { input: s })
}

/// Relies on nom's `character::complete::i64`: an optional `+` or `-`, then
/// ASCII digits up to the first other character, read as a decimal number;
/// it fails where no digit follows the sign or the value does not fit in an
/// `i64`.
#[verifier::external_body]
fn lex_i64<'a>(s: &'a str) -> (r: Option<(&'a str, i64)>)
    ensures
        r is Some == p_i64(s@) is Some,
        r matches Some((rest, v)) ==> p_i64(s@) == Some((rest@, v)),
{
    match nom::character::complete::i64::<&'a str, nom::error::Error<&'a str>>(s) {
        Ok((rest, v)) => Some((rest, v)),
        Err(_) => None,
    }
}

/// A literal: `true`, `false`, or a decimal integer that fits in an `i64`,
/// tried in that order.
pub fn prim<'a>(s: &'a str) -> (r: PResult<'a, Expr>)
    ensures
        outcome(r, s@, p_prim(s@)),
        shrinks(r, s@),
{
    proof {
        reveal_strlit("true");
        reveal_strlit("false");
    }
    if let Some(rest) = tag(s, "true") {
        return Ok((rest, Expr::Prim(Prim::Bool(true))));
    }
    if let Some(rest) = tag(s, "false") {
        return Ok((rest, Expr::Prim(Prim::Bool(false))));
    }
    match lex_i64(s) {
        Some((rest, v)) => {
            proof {
                let body = s@.skip(sign_len(s@));
                lemma_run_len_bound(body, CharClass::Digit);
            }
            Ok((rest, Expr::Prim(Prim::I64(v))))
        },
        None => Err(ParseError { input: s }),
    }
}

/// A string literal: the characters between two double quotes, verbatim.
pub fn string<'a>(s: &'a str) -> (r: PResult<'a, Expr>)
    ensures
        outcome(r, s@, p_string(s@)),
        shrinks(r, s@),
{
    if starts_with_char(s, '"') {
        let body = s.substring_char(1, s.unicode_len());
        assert(body@ =~= s@.drop_first());
        let n = run(body, CharClass::NotQuote);
        let blen = body.unicode_len();
        if n < blen {
            let content = body.substring_char(0, n);
            assert(content@ =~= body@.take(n as int));
            return Ok((body.substring_char(n + 1, blen), Expr::Prim(Prim::Str(content.to_owned()))));
        }
    }
    Err(ParseError { input: s })
}

/// A name used as an expression.
fn name_expr<'a>(s: &'a str) -> (r: PResult<'a, Expr>)
    ensures
        outcome(r, s@, p_name_expr(s@)),
        shrinks(r, s@),
{
    match name(s) {
        Ok((rest, n)) => Ok((rest, Expr::Name(n.to_owned()))),
        Err(e) => Err(e),
    }
}

/// A call: `@` directly before the callee's name, then zero or more
/// arguments, each an expression, separated by spaces.
fn call<'a>(s: &'a str) -> (r: PResult<'a, Expr>)
    ensures
        outcome(r, s@, p_call(s@)),
        shrinks(r, s@),
    decreases s@.len(), 0nat,
{
    if starts_with_char(s, '@') {
        let s1 = s.substring_char(1, s.unicode_len());
        assert(s1@ =~= s@.drop_first());
        if let Ok((rest, f)) = name(s1) {
            let r2 = skip_sp(rest);
            if let Ok((r3, v)) = args(r2) {
                return Ok((r3, Expr::Call(Call { func_name: f.to_owned(), args: v })));
            }
        }
    }
    Err(ParseError { input: s })
}

/// Zero or more expressions, each followed by spaces.
fn args<'a>(s: &'a str) -> (r: PResult<'a, Vec<Expr>>)
    ensures
        match p_args(s@) {
            Some((rest, es)) => r matches Ok((rr, v)) && rr@ == rest && view_exprs(v@) == es,
            None => r is Err,
        },
        within(r, s@),
    decreases s@.len(), 3nat,
{
    match expr(s) {
        Err(_) => Ok((s, Vec::new())),
        Ok((r1, e)) => {
            let r2 = skip_sp(r1);
            match args(r2) {
                Ok((r3, mut more)) => {
                    let ghost tail = more@;
                    let mut v = Vec::new();
                    v.push(e);
                    v.append(&mut more);
                    proof {
                        assert(v@ =~= seq![e] + tail);
                        lemma_view_exprs_cons(e, tail);
                    }
                    Ok((r3, v))
                },
                Err(err) => Err(err),
            }
        },
    }
}

/// Inside parentheses: a literal, a name, a call or a string, each followed
/// by any whitespace.
fn paren_atom<'a>(s: &'a str) -> (r: PResult<'a, Expr>)
    ensures
        outcome(r, s@, p_paren_atom(s@)),
        shrinks(r, s@),
    decreases s@.len(), 1nat,
{
    let a = match prim(s) {
        Ok(x) => Ok(x),
        Err(_) => match name_expr(s) {
            Ok(x) => Ok(x),
            Err(_) => match call(s) {
                Ok(x) => Ok(x),
                Err(_) => string(s),
            },
        },
    };
    match a {
        Ok((rest, e)) => Ok((skip_ms(rest), e)),
        Err(_) => Err(ParseError { input: s }),
    }
}

/// Without parentheses: a literal, a name, a call or a string.
fn atom<'a>(s: &'a str) -> (r: PResult<'a, Expr>)
    ensures
        outcome(r, s@, p_atom(s@)),
        shrinks(r, s@),
    decreases s@.len(), 1nat,
{
    match prim(s) {
        Ok(x) => Ok(x),
        Err(_) => match name_expr(s) {
            Ok(x) => Ok(x),
            Err(_) => match call(s) {
                Ok(x) => Ok(x),
                Err(_) => match string(s) {
                    Ok(x) => Ok(x),
                    Err(_) => Err(ParseError { input: s }),
                },
            },
        },
    }
}

/// The parenthesised form of an expression.
fn paren<'a>(s: &'a str) -> (r: PResult<'a, Expr>)
    ensures
        outcome(r, s@, p_paren(s@)),
        shrinks(r, s@),
    decreases s@.len(), 1nat,
{
    proof {
        reveal_strlit("(");
        reveal_strlit(")");
    }
    if let Some(r1) = ws_tag(s, "(") {
        if let Ok((r2, e)) = paren_atom(r1) {
            if let Some(r3) = tag(r2, ")") {
                return Ok((r3, e));
            }
        }
    }
    Err(ParseError { input: s })
}

/// An expression: a literal, a name, a call or a string, with or without
/// parentheses round it, then any spaces.
pub fn expr<'a>(s: &'a str) -> (r: PResult<'a, Expr>)
    ensures
        outcome(r, s@, p_expr(s@)),
        shrinks(r, s@),
    decreases s@.len(), 2nat,
{
    match paren(s) {
        Ok((r1, e)) => Ok((skip_sp(r1), e)),
        Err(_) => match atom(s) {
            Ok((r1, e)) => Ok((skip_sp(r1), e)),
            Err(_) => Err(ParseError { input: s }),
        },
    }
}

/// `name : type`, optionally in parentheses.
pub fn name_typed<'a>(s: &'a str) -> (r: PResult<'a, (&'a str, &'a str)>)
    ensures
        outcome(r, s@, p_name_typed(s@)),
        within(r, s@),
{
    proof {
        reveal_strlit("(");
        reveal_strlit(":");
        reveal_strlit(")");
    }
    let s1 = match ws_tag(s, "(") {
        Some(r) => r,
        None => s,
    };
    if let Ok((r1, id)) = name(s1) {
        if let Some(r2) = ws_tag(skip_ms(r1), ":") {
            if let Ok((r3, ty)) = name(r2) {
                let r4 = match ws_tag(r3, ")") {
                    Some(x) => x,
                    None => r3,
                };
                return Ok((r4, (id, ty)));
            }
        }
    }
    Err(ParseError { input: s })
}

/// One parameter group: a typed name, then `->`.
fn param<'a>(s: &'a str) -> (r: PResult<'a, (&'a str, &'a str)>)
    ensures
        outcome(r, s@, p_param(s@)),
        shrinks(r, s@),
{
    proof {
        reveal_strlit("->");
    }
    if let Ok((r1, p)) = name_typed(s) {
        if let Some(r2) = ws_tag(skip_ms(r1), "->") {
            return Ok((r2, p));
        }
    }
    Err(ParseError { input: s })
}

/// Zero or more parameter groups.
fn params<'a>(s: &'a str) -> (r: PResult<'a, Vec<(String, String)>>)
    ensures
        match p_params(s@) {
            Some((rest, ps)) => r matches Ok((rr, v)) && rr@ == rest && view_params(v@) == ps,
            None => r is Err,
        },
        within(r, s@),
    decreases s@.len(),
{
    match param(s) {
        Err(_) => Ok((s, Vec::new())),
        Ok((r1, (id, ty))) => {
            match params(r1) {
                Ok((r2, mut more)) => {
                    let ghost tail = more@;
                    let mut v = Vec::new();
                    v.push((id.to_owned(), ty.to_owned()));
                    v.append(&mut more);
                    proof {
                        assert(view_params(v@) =~= seq![(id@, ty@)] + view_params(tail));
                    }
                    Ok((r2, v))
                },
                Err(e) => Err(e),
            }
        },
    }
}

/// A signature: `:`, zero or more `name: type ->` groups, then the return
/// type's name.
pub fn kind<'a>(s: &'a str) -> (r: PResult<'a, Kind>)
    ensures
        outcome(r, s@, p_kind(s@)),
        shrinks(r, s@),
{
    proof {
        reveal_strlit(":");
    }
    if let Some(r1) = ws_tag(s, ":") {
        if let Ok((r2, ps)) = params(r1) {
            if let Ok((r3, ret)) = name(r2) {
                return Ok((skip_ms(r3), Kind { params: ps, ret: ret.to_owned() }));
            }
        }
    }
    Err(ParseError { input: s })
}

/// `break` or the placeholder `...`.
pub fn keyword<'a>(s: &'a str) -> (r: PResult<'a, Keyword>)
    ensures
        outcome(r, s@, p_keyword(s@)),
        shrinks(r, s@),
{
    proof {
        reveal_strlit("break");
        reveal_strlit("...");
    }
    if let Some(rest) = tag(s, "break") {
        return Ok((rest, Keyword::Break));
    }
    if let Some(rest) = tag(s, "...") {
        return Ok((rest, Keyword::Ellipsis));
    }
    Err(ParseError { input: s })
}

/// An assignment: a name, a binder symbol, an expression and a line feed.
pub fn assign<'a>(s: &'a str) -> (r: PResult<'a, Instr>)
    ensures
        outcome(r, s@, p_assign(s@)),
        shrinks(r, s@),
{
    if let Ok((r1, n)) = name(s) {
        if let Some(r2) = binder(skip_ms(r1)) {
            if let Ok((r3, e)) = expr(r2) {
                if let Some(r4) = newline(r3) {
                    return Ok((r4, Instr::Assign(Assign { name: n.to_owned(), expr: e })));
                }
            }
        }
    }
    Err(ParseError { input: s })
}

/// A binding: `let`, an optional `mut`, a typed name, a binder symbol, an
/// expression and a line feed. With `mut` it is a mutable binding.
pub fn bind<'a>(s: &'a str) -> (r: PResult<'a, Instr>)
    ensures
        outcome(r, s@, p_bind(s@)),
        shrinks(r, s@),
{
    proof {
        reveal_strlit("let");
    }
    if let Some(r0) = ws_tag(s, "let") {
        let m = ws_tag(r0, "mut");
        let r1 = match m {
            Some(x) => x,
            None => r0,
        };
        if let Ok((r2, (id, ty))) = name_typed(r1) {
            if let Some(r3) = binder(skip_ms(r2)) {
                if let Ok((r4, e)) = expr(r3) {
                    if let Some(r5) = newline(r4) {
                        let b = Bind { id: id.to_owned(), ty: ty.to_owned(), expr: e };
                        let i = if m.is_some() {
                            Instr::MutBind(b)
                        } else {
                            Instr::Bind(b)
                        };
                        return Ok((r5, i));
                    }
                }
            }
        }
    }
    Err(ParseError { input: s })
}

/// One or more statements, each followed by any whitespace.
fn body<'a>(s: &'a str) -> (r: PResult<'a, Vec<Instr>>)
    ensures
        match p_body(s@) {
            Some((rest, is)) => r matches Ok((rr, v)) && rr@ == rest && view_instrs(v@) == is,
            None => r matches Err(e) && e.input@ == s@,
        },
        within(r, s@),
    decreases s@.len(), 9nat,
{
    match instrs(s) {
        Ok((rest, v)) => {
            if v.len() > 0 {
                Ok((rest, v))
            } else {
                Err(ParseError { input: s })
            }
        },
        Err(_) => Err(ParseError { input: s }),
    }
}

/// Zero or more statements, each followed by any whitespace.
fn instrs<'a>(s: &'a str) -> (r: PResult<'a, Vec<Instr>>)
    ensures
        match p_instrs(s@) {
            Some((rest, is)) => r matches Ok((rr, v)) && rr@ == rest && view_instrs(v@) == is,
            None => r is Err,
        },
        within(r, s@),
    decreases s@.len(), 8nat,
{
    match ws_instr(s) {
        Err(_) => Ok((s, Vec::new())),
        Ok((r1, i)) => match instrs(r1) {
            Ok((r2, mut more)) => {
                let ghost tail = more@;
                let mut v = Vec::new();
                v.push(i);
                v.append(&mut more);
                proof {
                    assert(v@ =~= seq![i] + tail);
                    lemma_view_instrs_cons(i, tail);
                }
                Ok((r2, v))
            },
            Err(e) => Err(e),
        },
    }
}

/// A statement, then any whitespace.
fn ws_instr<'a>(s: &'a str) -> (r: PResult<'a, Instr>)
    ensures
        outcome(r, s@, p_ws_instr(s@)),
        shrinks(r, s@),
    decreases s@.len(), 7nat,
{
    match instr(s) {
        Ok((rest, i)) => Ok((skip_ms(rest), i)),
        Err(e) => Err(e),
    }
}

/// A statement: the first that matches of an expression and a line feed, an
/// assignment, a binding, a branch, a loop, and a keyword and a line feed.
pub fn instr<'a>(s: &'a str) -> (r: PResult<'a, Instr>)
    ensures
        outcome(r, s@, p_instr(s@)),
        shrinks(r, s@),
    decreases s@.len(), 6nat,
{
    if let Ok((r1, e)) = expr(s) {
        if let Some(r2) = newline(r1) {
            return Ok((r2, Instr::Expr(e)));
        }
    }
    if let Ok((r1, a)) = assign(s) {
        return Ok((skip_ms(r1), a));
    }
    if let Ok((r1, b)) = bind(s) {
        return Ok((skip_ms(r1), b));
    }
    if let Ok((r1, b)) = branch(s) {
        return Ok((skip_ms(r1), Instr::Branch(b)));
    }
    if let Ok((r1, l)) = loop_(s) {
        return Ok((skip_ms(r1), Instr::Loop(l)));
    }
    if let Ok((r1, k)) = keyword(s) {
        if let Some(r2) = newline(r1) {
            return Ok((r2, Instr::Keyword(k)));
        }
    }
    Err(ParseError { input: s })
}

/// The word `w`, a condition, `then` and a body.
fn guarded<'a>(s: &'a str, w: &str) -> (r: PResult<'a, (Expr, Vec<Instr>)>)
    requires
        w@.len() > 0,
    ensures
        match p_guarded(s@, w@) {
            Some((rest, (c, b))) => r matches Ok((rr, (e, v))) && rr@ == rest && e@ == c
                && view_instrs(v@) == b,
            None => r is Err,
        },
        shrinks(r, s@),
    decreases s@.len(), 2nat,
{
    proof {
        reveal_strlit("then");
    }
    if let Some(r0) = ws_tag(s, w) {
        if let Ok((r1, c)) = expr(r0) {
            if let Some(r2) = ws_tag(skip_ms(r1), "then") {
                if let Ok((r3, b)) = body(r2) {
                    return Ok((r3, (c, b)));
                }
            }
        }
    }
    Err(ParseError { input: s })
}

/// Zero or more `elsif` groups.
fn elsifs<'a>(s: &'a str) -> (r: PResult<'a, Vec<(Expr, Vec<Instr>)>>)
    ensures
        match p_elsifs(s@) {
            Some((rest, gs)) => r matches Ok((rr, v)) && rr@ == rest && view_paths(v@) == gs,
            None => r is Err,
        },
        within(r, s@),
    decreases s@.len(), 3nat,
{
    proof {
        reveal_strlit("elsif");
    }
    match guarded(s, "elsif") {
        Err(_) => Ok((s, Vec::new())),
        Ok((r1, g)) => match elsifs(r1) {
            Ok((r2, mut more)) => {
                let ghost tail = more@;
                let mut v = Vec::new();
                v.push(g);
                v.append(&mut more);
                proof {
                    assert(v@ =~= seq![g] + tail);
                    lemma_view_paths_cons(g, tail);
                }
                Ok((r2, v))
            },
            Err(e) => Err(e),
        },
    }
}

/// An optional `else` and a body.
fn else_part<'a>(s: &'a str) -> (r: (&'a str, Option<Vec<Instr>>))
    ensures
        r.0@ == p_else(s@).0,
        r.0@.len() <= s@.len(),
        match p_else(s@).1 {
            Some(b) => r.1 matches Some(v) && view_instrs(v@) == b,
            None => r.1 is None,
        },
    decreases s@.len(), 2nat,
{
    proof {
        reveal_strlit("else");
    }
    if let Some(r1) = ws_tag(s, "else") {
        if let Ok((r2, b)) = body(r1) {
            return (r2, Some(b));
        }
    }
    (s, None)
}

/// A branch: `if` condition `then` body, zero or more `elsif` condition
/// `then` body groups, an optional `else` body, and `end`. The `else` body
/// becomes a last path whose condition is the literal `true`.
pub fn branch<'a>(s: &'a str) -> (r: PResult<'a, Branch>)
    ensures
        outcome(r, s@, p_branch(s@)),
        shrinks(r, s@),
    decreases s@.len(), 5nat,
{
    proof {
        reveal_strlit("if");
        reveal_strlit("end");
    }
    if let Ok((r1, head)) = guarded(s, "if") {
        if let Ok((r2, mut middle)) = elsifs(r1) {
            let (r3, last) = else_part(r2);
            if let Some(r4) = ws_tag(r3, "end") {
                let ghost head_v = head;
                let ghost middle_v = middle@;
                let mut paths = Vec::new();
                paths.push(head);
                paths.append(&mut middle);
                let ghost first = paths@;
                proof {
                    assert(first =~= seq![head_v] + middle_v);
                    lemma_view_paths_cons(head_v, Seq::empty());
                    assert(seq![head_v] + Seq::<(Expr, Vec<Instr>)>::empty() =~= seq![head_v]);
                    lemma_view_paths_concat(seq![head_v], middle_v);
                }
                if let Some(b) = last {
                    let ghost tail = (Expr::Prim(Prim::Bool(true)), b);
                    paths.push((Expr::Prim(Prim::Bool(true)), b));
                    proof {
                        assert(paths@ =~= first + seq![tail]);
                        lemma_view_paths_cons(tail, Seq::empty());
                        assert(seq![tail] + Seq::<(Expr, Vec<Instr>)>::empty() =~= seq![tail]);
                        lemma_view_paths_concat(first, seq![tail]);
                    }
                }
                return Ok((r4, Branch { paths }));
            }
        }
    }
    Err(ParseError { input: s })
}

/// A loop: `loop`, a body and `end`.
pub fn loop_<'a>(s: &'a str) -> (r: PResult<'a, Loop>)
    ensures
        outcome(r, s@, p_loop(s@)),
        shrinks(r, s@),
    decreases s@.len(), 5nat,
{
    proof {
        reveal_strlit("loop");
        reveal_strlit("end");
    }
    if let Some(r1) = ws_tag(s, "loop") {
        if let Ok((r2, b)) = body(r1) {
            if let Some(r3) = ws_tag(r2, "end") {
                return Ok((r3, Loop { body: b }));
            }
        }
    }
    Err(ParseError { input: s })
}

/// A function declaration: `let`, its name, its signature, a binder symbol,
/// one or more statements and `end`. Gives the name with the declaration.
pub fn func<'a>(s: &'a str) -> (r: PResult<'a, (String, Decl)>)
    ensures
        outcome(r, s@, p_func(s@)),
        shrinks(r, s@),
{
    proof {
        reveal_strlit("let");
        reveal_strlit("end");
    }
    if let Some(r0) = ws_tag(s, "let") {
        if let Ok((r1, n)) = name(r0) {
            if let Ok((r2, k)) = kind(skip_ms(r1)) {
                if let Some(r3) = binder(skip_ms(r2)) {
                    if let Ok((r4, b)) = body(r3) {
                        if let Some(r5) = ws_tag(r4, "end") {
                            return Ok((r5, (n.to_owned(), Decl::Func(Func { kind: k, body: b }))));
                        }
                    }
                }
            }
        }
    }
    Err(ParseError { input: s })
}

/// A whole program: one or more declarations that together take all of `s`.
/// On failure, the error holds the input at the first declaration that does
/// not parse.
pub fn ast<'a>(s: &'a str) -> (r: PResult<'a, AST>)
    ensures
        match p_program(s@) {
            Some(ds) => r matches Ok((rest, a)) && rest@.len() == 0 && a@ == ds,
            None => r matches Err(e) && e.input@ == program_failure(s@),
        },
{
    if s.unicode_len() == 0 {
        return Err(ParseError { input: s });
    }
    let mut cur = s;
    let mut decls: Vec<(String, Decl)> = Vec::new();
    loop
        invariant
            cur@.len() > 0,
            program_failure(s@) == program_failure(cur@),
            p_program(s@) == match p_decls(cur@) {
                Some(ds) => Some(view_decls(decls@) + ds),
                None => None,
            },
        decreases cur@.len(),
    {
        match func(cur) {
            Err(_) => {
                return Err(ParseError { input: cur });
            },
            Ok((rest, d)) => {
                let ghost before = decls@;
                decls.push(d);
                proof {
                    assert(view_decls(decls@) =~= view_decls(before) + seq![d@]);
                    if let Some(ds) = p_decls(rest@) {
                        assert(view_decls(before) + (seq![d@] + ds) =~= view_decls(decls@) + ds);
                    }
                }
                if rest.unicode_len() == 0 {
                    proof {
                        assert(view_decls(decls@) + Seq::empty() =~= view_decls(decls@));
                    }
                    return Ok((rest, AST { decls }));
                }
                cur = rest;
            },
        }
    }
}

/// A line comment: `//` and the rest of the line, which may be empty.
pub fn eol_comment<'a>(s: &'a str) -> (r: PResult<'a, ()>)
    ensures
        match p_eol_comment(s@) {
            Some(rest) => r matches Ok((rr, _)) && rr@ == rest,
            None => r matches Err(e) && e.input@ == s@,
        },
        shrinks(r, s@),
{
    proof {
        reveal_strlit("//");
    }
    if let Some(r1) = tag(s, "//") {
        let n = run(r1, CharClass::NotNewline);
        return Ok((r1.substring_char(n, r1.unicode_len()), ()));
    }
    Err(ParseError { input: s })
}

/// Where the first `*/` in `s` starts.
fn find_close_at(s: &str) -> (r: Option<usize>)
    ensures
        find_close(s@) == match r {
            Some(k) => Some(k as int),
            None => None,
        },
        r matches Some(k) ==> k + 2 <= s@.len(),
{
    let len = s.unicode_len();
    let mut i: usize = 0;
    assert(s@.skip(0) =~= s@);
    while i < len && i + 1 < len
        invariant
            i <= len,
            len == s@.len(),
            find_close(s@) == match find_close(s@.skip(i as int)) {
                Some(k) => Some(k + i),
                None => None,
            },
        decreases len - i,
    {
        if s.get_char(i) == '*' && s.get_char(i + 1) == '/' {
            return Some(i);
        }
        assert(s@.skip(i as int).drop_first() =~= s@.skip(i + 1));
        i += 1;
    }
    None
}

/// A block comment: `/*`, anything, and the first `*/` after it.
pub fn inline_comment<'a>(s: &'a str) -> (r: PResult<'a, ()>)
    ensures
        match p_inline_comment(s@) {
            Some(rest) => r matches Ok((rr, _)) && rr@ == rest,
            None => r matches Err(e) && e.input@ == s@,
        },
{
    proof {
        reveal_strlit("/*");
    }
    if let Some(r1) = tag(s, "/*") {
        let n = r1.unicode_len();
        if let Some(k) = find_close_at(r1) {
            return Ok((r1.substring_char(k + 2, n), ()));
        }
    }
    Err(ParseError { input: s })
}

/// Skips whitespace and line comments; never fails.
pub fn whitespace<'a>(s: &'a str) -> (r: PResult<'a, ()>)
    ensures
        r matches Ok((rest, _)) && rest@ == skip_filler(s@),
{
    let mut cur = s;
    loop
        invariant
            skip_filler(s@) == skip_filler(cur@),
        decreases cur@.len(),
    {
        let m = run(cur, CharClass::Multispace);
        if m > 0 {
            cur = cur.substring_char(m, cur.unicode_len());
        } else {
            match eol_comment(cur) {
                Ok((rest, _)) => {
                    cur = rest;
                },
                Err(_) => {
                    return Ok((cur, ()));
                },
            }
        }
    }
}

} // verus!
