//! The grammar of the language, stated as functions on character sequences.
//!
//! Each rule takes the remaining input and gives back either `None` (the rule
//! does not match there) or the input that is left after it together with the
//! model of what it recognised. Alternatives are tried in order from the same
//! input; repetitions are greedy. A repetition stops with a failure when one
//! of its rounds consumes nothing, and a rule that recurses into the input it
//! has not yet consumed checks that it did consume something first: these
//! checks never fail on the rules below, which all consume (the parser proves
//! as much where it meets them), and they keep the definitions well founded.
use vstd::prelude::*;
use crate::ast::{ExprV, PrimV, BindV, InstrV, KindV, FuncV, Keyword};

verus! {

/// The classes of characters that the grammar skips or collects in runs.
#[derive(Clone, Copy, PartialEq, Eq)]
pub enum CharClass {
    /// Space, tab, carriage return, line feed.
    Multispace,
    /// Space and tab.
    Space,
    /// ASCII letters and digits, and `_`.
    Ident,
    /// ASCII decimal digits.
    Digit,
    /// Anything but a double quote.
    NotQuote,
    /// Anything but a line feed or a carriage return.
    NotNewline,
}

/// An ASCII letter or `_`: what an identifier starts with.
pub open spec fn is_ident_start(c: char) -> bool {
    ('a' <= c && c <= 'z') || ('A' <= c && c <= 'Z') || c == '_'
}

/// An ASCII decimal digit.
pub open spec fn is_digit(c: char) -> bool {
    '0' <= c && c <= '9'
}

/// Whether `c` belongs to class `k`.
pub open spec fn in_class(c: char, k: CharClass) -> bool {
    match k {
        CharClass::Multispace => c == ' ' || c == '\t' || c == '\r' || c == '\n',
        CharClass::Space => c == ' ' || c == '\t',
        CharClass::Ident => is_ident_start(c) || is_digit(c),
        CharClass::Digit => is_digit(c),
        CharClass::NotQuote => c != '"',
        CharClass::NotNewline => c != '\n' && c != '\r',
    }
}

/// Length of the longest prefix of `s` made of characters of class `k`.
pub open spec fn run_len(s: Seq<char>, k: CharClass) -> nat
    decreases s.len(),
{
    if s.len() > 0 && in_class(s[0], k) {
        1 + run_len(s.drop_first(), k)
    } else {
        0
    }
}

/// A run is never longer than the sequence it starts.
pub proof fn lemma_run_len_bound(s: Seq<char>, k: CharClass)
    ensures
        run_len(s, k) <= s.len(),
    decreases s.len(),
{
    if s.len() > 0 && in_class(s[0], k) {
        lemma_run_len_bound(s.drop_first(), k);
    }
}

/// `s` without its longest prefix of class `k`.
pub open spec fn skip_class(s: Seq<char>, k: CharClass) -> Seq<char> {
    s.skip(run_len(s, k) as int)
}

/// `s` without its leading spaces, tabs and line breaks.
pub open spec fn ms(s: Seq<char>) -> Seq<char> {
    skip_class(s, CharClass::Multispace)
}

/// `s` without its leading spaces and tabs.
pub open spec fn sp(s: Seq<char>) -> Seq<char> {
    skip_class(s, CharClass::Space)
}

/// The literal `t` at the front of `s`.
pub open spec fn p_tag(s: Seq<char>, t: Seq<char>) -> Option<Seq<char>> {
    if t.len() <= s.len() && s.take(t.len() as int) == t {
        Some(s.skip(t.len() as int))
    } else {
        None
    }
}

/// The literal `t`, then any whitespace.
pub open spec fn p_ws_tag(s: Seq<char>, t: Seq<char>) -> Option<Seq<char>> {
    match p_tag(s, t) {
        Some(r) => Some(ms(r)),
        None => None,
    }
}

/// A line feed.
pub open spec fn p_newline(s: Seq<char>) -> Option<Seq<char>> {
    if s.len() > 0 && s[0] == '\n' {
        Some(s.drop_first())
    } else {
        None
    }
}

/// A binder symbol, `~` or `=`, then any whitespace.
pub open spec fn p_binder(s: Seq<char>) -> Option<Seq<char>> {
    match p_ws_tag(s, "~"@) {
        Some(r) => Some(r),
        None => p_ws_tag(s, "="@),
    }
}

/// The words that an identifier may not be.
pub open spec fn is_reserved(w: Seq<char>) -> bool {
    w == "let"@ || w == "end"@ || w == "true"@
        || w == "false"@ || w == "if"@ || w == "then"@ || w == "else"@ || w == "loop"@ || w == "break"@
}

/// An identifier: a letter or `_`, then letters, digits and `_`, and not a
/// reserved word.
pub open spec fn p_name(s: Seq<char>) -> Option<(Seq<char>, Seq<char>)> {
    if s.len() > 0 && is_ident_start(s[0]) {
        let n = run_len(s, CharClass::Ident) as int;
        if is_reserved(s.take(n)) {
            None
        } else {
            Some((s.skip(n), s.take(n)))
        }
    } else {
        None
    }
}

/// The value of a sequence of decimal digits.
pub open spec fn digits_value(d: Seq<char>) -> int
    decreases d.len(),
{
    if d.len() == 0 {
        0
    } else {
        digits_value(d.drop_last()) * 10 + (d.last() as int - '0' as int)
    }
}

/// Length of the sign at the front of an integer literal.
pub open spec fn sign_len(s: Seq<char>) -> int {
    if s.len() > 0 && (s[0] == '-' || s[0] == '+') {
        1
    } else {
        0
    }
}

/// The value that an optional sign and the run of digits after it denote.
pub open spec fn signed_value(s: Seq<char>) -> int {
    let body = s.skip(sign_len(s));
    let m = digits_value(body.take(run_len(body, CharClass::Digit) as int));
    if sign_len(s) == 1 && s[0] == '-' {
        -m
    } else {
        m
    }
}

/// A decimal integer literal: an optional `+` or `-`, then one or more
/// digits, whose value fits in an `i64`.
pub open spec fn p_i64(s: Seq<char>) -> Option<(Seq<char>, i64)> {
    let body = s.skip(sign_len(s));
    let n = run_len(body, CharClass::Digit) as int;
    let v = signed_value(s);
    if n > 0 && i64::MIN <= v && v <= i64::MAX {
        Some((body.skip(n), v as i64))
    } else {
        None
    }
}

/// The boolean literal `b` as an expression.
pub open spec fn bool_expr(b: bool) -> ExprV {
    ExprV::Prim(PrimV::Bool(b))
}

/// A literal: `true`, `false`, or an integer, in that order.
pub open spec fn p_prim(s: Seq<char>) -> Option<(Seq<char>, ExprV)> {
    match p_tag(s, "true"@) {
        Some(r) => Some((r, bool_expr(true))),
        None => match p_tag(s, "false"@) {
            Some(r) => Some((r, bool_expr(false))),
            None => match p_i64(s) {
                Some((r, v)) => Some((r, ExprV::Prim(PrimV::I64(v)))),
                None => None,
            },
        },
    }
}

/// A string literal: every character between two double quotes, verbatim.
pub open spec fn p_string(s: Seq<char>) -> Option<(Seq<char>, ExprV)> {
    if s.len() > 0 && s[0] == '"' {
        let body = s.drop_first();
        let n = run_len(body, CharClass::NotQuote) as int;
        if n < body.len() {
            Some((body.skip(n + 1), ExprV::Prim(PrimV::Str(body.take(n)))))
        } else {
            None
        }
    } else {
        None
    }
}

/// A name used as an expression.
pub open spec fn p_name_expr(s: Seq<char>) -> Option<(Seq<char>, ExprV)> {
    match p_name(s) {
        Some((r, n)) => Some((r, ExprV::Name(n))),
        None => None,
    }
}

/// A call: `@`, the callee's name, then its arguments, each an expression.
pub open spec fn p_call(s: Seq<char>) -> Option<(Seq<char>, ExprV)>
    decreases s.len(), 0nat,
{
    if s.len() > 0 && s[0] == '@' {
        match p_name(s.drop_first()) {
            Some((r, f)) => {
                let r2 = sp(r);
                if r2.len() < s.len() {
                    match p_args(r2) {
                        Some((r3, args)) => Some((r3, ExprV::Call(f, args))),
                        None => None,
                    }
                } else {
                    None
                }
            },
            None => None,
        }
    } else {
        None
    }
}

/// Zero or more expressions, each followed by spaces.
pub open spec fn p_args(s: Seq<char>) -> Option<(Seq<char>, Seq<ExprV>)>
    decreases s.len(), 3nat,
{
    match p_expr(s) {
        None => Some((s, Seq::empty())),
        Some((r, e)) => {
            let r2 = sp(r);
            if r2.len() < s.len() {
                match p_args(r2) {
                    Some((r3, es)) => Some((r3, seq![e] + es)),
                    None => None,
                }
            } else {
                None
            }
        },
    }
}

/// Inside parentheses: a literal, a name, a call or a string, each followed
/// by any whitespace.
pub open spec fn p_paren_atom(s: Seq<char>) -> Option<(Seq<char>, ExprV)>
    decreases s.len(), 1nat,
{
    let a = match p_prim(s) {
        Some(x) => Some(x),
        None => match p_name_expr(s) {
            Some(x) => Some(x),
            None => match p_call(s) {
                Some(x) => Some(x),
                None => p_string(s),
            },
        },
    };
    match a {
        Some((r, e)) => Some((ms(r), e)),
        None => None,
    }
}

/// Without parentheses: a literal, a name, a call or a string.
pub open spec fn p_atom(s: Seq<char>) -> Option<(Seq<char>, ExprV)>
    decreases s.len(), 1nat,
{
    match p_prim(s) {
        Some(x) => Some(x),
        None => match p_name_expr(s) {
            Some(x) => Some(x),
            None => match p_call(s) {
                Some(x) => Some(x),
                None => p_string(s),
            },
        },
    }
}

/// The parenthesised form of an expression.
pub open spec fn p_paren(s: Seq<char>) -> Option<(Seq<char>, ExprV)>
    decreases s.len(), 1nat,
{
    match p_ws_tag(s, "("@) {
        Some(r) => if r.len() < s.len() {
            match p_paren_atom(r) {
                Some((r2, e)) => match p_tag(r2, ")"@) {
                    Some(r3) => Some((r3, e)),
                    None => None,
                },
                None => None,
            }
        } else {
            None
        },
        None => None,
    }
}

/// An expression, parenthesised or not, then any spaces.
pub open spec fn p_expr(s: Seq<char>) -> Option<(Seq<char>, ExprV)>
    decreases s.len(), 2nat,
{
    match p_paren(s) {
        Some((r, e)) => Some((sp(r), e)),
        None => match p_atom(s) {
            Some((r, e)) => Some((sp(r), e)),
            None => None,
        },
    }
}

/// `name : type`, with optional parentheses round it.
pub open spec fn p_name_typed(s: Seq<char>) -> Option<(Seq<char>, (Seq<char>, Seq<char>))> {
    let s1 = match p_ws_tag(s, "("@) {
        Some(r) => r,
        None => s,
    };
    match p_name(s1) {
        Some((r, id)) => match p_ws_tag(ms(r), ":"@) {
            Some(r2) => match p_name(r2) {
                Some((r3, ty)) => {
                    let r4 = match p_ws_tag(r3, ")"@) {
                        Some(x) => x,
                        None => r3,
                    };
                    Some((r4, (id, ty)))
                },
                None => None,
            },
            None => None,
        },
        None => None,
    }
}

/// One parameter group: a typed name, then `->`.
pub open spec fn p_param(s: Seq<char>) -> Option<(Seq<char>, (Seq<char>, Seq<char>))> {
    match p_name_typed(s) {
        Some((r, p)) => match p_ws_tag(ms(r), "->"@) {
            Some(r2) => Some((r2, p)),
            None => None,
        },
        None => None,
    }
}

/// Zero or more parameter groups.
pub open spec fn p_params(s: Seq<char>) -> Option<(Seq<char>, Seq<(Seq<char>, Seq<char>)>)>
    decreases s.len(),
{
    match p_param(s) {
        None => Some((s, Seq::empty())),
        Some((r, p)) => if r.len() < s.len() {
            match p_params(r) {
                Some((r2, ps)) => Some((r2, seq![p] + ps)),
                None => None,
            }
        } else {
            None
        },
    }
}

/// A signature: `:`, the parameter groups, then the return type's name.
pub open spec fn p_kind(s: Seq<char>) -> Option<(Seq<char>, KindV)> {
    match p_ws_tag(s, ":"@) {
        Some(r) => match p_params(r) {
            Some((r2, params)) => match p_name(r2) {
                Some((r3, ret)) => Some((ms(r3), KindV { params, ret })),
                None => None,
            },
            None => None,
        },
        None => None,
    }
}

/// `break` or `...`.
pub open spec fn p_keyword(s: Seq<char>) -> Option<(Seq<char>, Keyword)> {
    match p_tag(s, "break"@) {
        Some(r) => Some((r, Keyword::Break)),
        None => match p_tag(s, "..."@) {
            Some(r) => Some((r, Keyword::Ellipsis)),
            None => None,
        },
    }
}

/// A name, a binder symbol, an expression and a line feed.
pub open spec fn p_assign(s: Seq<char>) -> Option<(Seq<char>, InstrV)> {
    match p_name(s) {
        Some((r, n)) => match p_binder(ms(r)) {
            Some(r2) => match p_expr(r2) {
                Some((r3, e)) => match p_newline(r3) {
                    Some(r4) => Some((r4, InstrV::Assign(n, e))),
                    None => None,
                },
                None => None,
            },
            None => None,
        },
        None => None,
    }
}

/// `let`, an optional `mut`, a typed name, a binder symbol, an expression
/// and a line feed.
pub open spec fn p_bind(s: Seq<char>) -> Option<(Seq<char>, InstrV)> {
    match p_ws_tag(s, "let"@) {
        Some(r) => {
            let m = p_ws_tag(r, "mut"@);
            let r1 = match m {
                Some(x) => x,
                None => r,
            };
            match p_name_typed(r1) {
                Some((r2, (id, ty))) => match p_binder(ms(r2)) {
                    Some(r3) => match p_expr(r3) {
                        Some((r4, e)) => match p_newline(r4) {
                            Some(r5) => {
                                let b = BindV { id, ty, expr: e };
                                Some((r5, if m is Some { InstrV::MutBind(b) } else { InstrV::Bind(b) }))
                            },
                            None => None,
                        },
                        None => None,
                    },
                    None => None,
                },
                None => None,
            }
        },
        None => None,
    }
}

/// One or more statements, each followed by any whitespace.
pub open spec fn p_body(s: Seq<char>) -> Option<(Seq<char>, Seq<InstrV>)>
    decreases s.len(), 9nat,
{
    match p_instrs(s) {
        Some((r, is)) => if is.len() > 0 {
            Some((r, is))
        } else {
            None
        },
        None => None,
    }
}

/// Zero or more statements, each followed by any whitespace.
pub open spec fn p_instrs(s: Seq<char>) -> Option<(Seq<char>, Seq<InstrV>)>
    decreases s.len(), 8nat,
{
    match p_ws_instr(s) {
        None => Some((s, Seq::empty())),
        Some((r, i)) => if r.len() < s.len() {
            match p_instrs(r) {
                Some((r2, is)) => Some((r2, seq![i] + is)),
                None => None,
            }
        } else {
            None
        },
    }
}

/// A statement, then any whitespace.
pub open spec fn p_ws_instr(s: Seq<char>) -> Option<(Seq<char>, InstrV)>
    decreases s.len(), 7nat,
{
    match p_instr(s) {
        Some((r, i)) => Some((ms(r), i)),
        None => None,
    }
}

/// A statement: the first of these that matches. An expression and a line
/// feed; an assignment; a binding; a branch; a loop; a keyword and a line
/// feed. All but the first and the last take the whitespace after them.
pub open spec fn p_instr(s: Seq<char>) -> Option<(Seq<char>, InstrV)>
    decreases s.len(), 6nat,
{
    let as_expr = match p_expr(s) {
        Some((r, e)) => match p_newline(r) {
            Some(r2) => Some((r2, InstrV::Expr(e))),
            None => None,
        },
        None => None,
    };
    if as_expr is Some {
        as_expr
    } else {
        match p_assign(s) {
            Some((r, a)) => Some((ms(r), a)),
            None => match p_bind(s) {
                Some((r, b)) => Some((ms(r), b)),
                None => match p_branch(s) {
                    Some((r, paths)) => Some((ms(r), InstrV::Branch(paths))),
                    None => match p_loop(s) {
                        Some((r, body)) => Some((ms(r), InstrV::Loop(body))),
                        None => match p_keyword(s) {
                            Some((r, k)) => match p_newline(r) {
                                Some(r2) => Some((r2, InstrV::Keyword(k))),
                                None => None,
                            },
                            None => None,
                        },
                    },
                },
            },
        }
    }
}

/// `if`, a condition, `then` and a body.
pub open spec fn p_if(s: Seq<char>) -> Option<(Seq<char>, (ExprV, Seq<InstrV>))>
    decreases s.len(), 3nat,
{
    p_guarded(s, "if"@)
}

/// The word `w`, a condition, `then` and a body.
pub open spec fn p_guarded(s: Seq<char>, w: Seq<char>) -> Option<(Seq<char>, (ExprV, Seq<InstrV>))>
    decreases s.len(), 2nat,
{
    match p_ws_tag(s, w) {
        Some(r) => match p_expr(r) {
            Some((r1, c)) => match p_ws_tag(ms(r1), "then"@) {
                Some(r2) => if r2.len() < s.len() {
                    match p_body(r2) {
                        Some((r3, b)) => Some((r3, (c, b))),
                        None => None,
                    }
                } else {
                    None
                },
                None => None,
            },
            None => None,
        },
        None => None,
    }
}

/// Zero or more `elsif` groups.
pub open spec fn p_elsifs(s: Seq<char>) -> Option<(Seq<char>, Seq<(ExprV, Seq<InstrV>)>)>
    decreases s.len(), 3nat,
{
    match p_guarded(s, "elsif"@) {
        None => Some((s, Seq::empty())),
        Some((r, g)) => if r.len() < s.len() {
            match p_elsifs(r) {
                Some((r2, gs)) => Some((r2, seq![g] + gs)),
                None => None,
            }
        } else {
            None
        },
    }
}

/// An optional `else` and a body.
pub open spec fn p_else(s: Seq<char>) -> (Seq<char>, Option<Seq<InstrV>>)
    decreases s.len(), 2nat,
{
    match p_ws_tag(s, "else"@) {
        Some(r) => if r.len() < s.len() {
            match p_body(r) {
                Some((r2, b)) => (r2, Some(b)),
                None => (s, None),
            }
        } else {
            (s, None)
        },
        None => (s, None),
    }
}

/// The pieces of a branch: the `if` group, the `elsif` groups, the `else`
/// body if there is one, and the input after the closing `end`.
pub open spec fn p_branch_parts(s: Seq<char>) -> Option<
    (Seq<char>, (ExprV, Seq<InstrV>), Seq<(ExprV, Seq<InstrV>)>, Option<Seq<InstrV>>),
>
    decreases s.len(), 4nat,
{
    match p_if(s) {
        Some((r, head)) => if r.len() < s.len() {
            match p_elsifs(r) {
                Some((r2, middle)) => if r2.len() < s.len() {
                    let (r3, last) = p_else(r2);
                    match p_ws_tag(r3, "end"@) {
                        Some(r4) => Some((r4, head, middle, last)),
                        None => None,
                    }
                } else {
                    None
                },
                None => None,
            }
        } else {
            None
        },
        None => None,
    }
}

/// The paths of a branch: the `if` group, the `elsif` groups, and the `else`
/// body under the condition `true`.
pub open spec fn branch_paths(
    head: (ExprV, Seq<InstrV>),
    middle: Seq<(ExprV, Seq<InstrV>)>,
    last: Option<Seq<InstrV>>,
) -> Seq<(ExprV, Seq<InstrV>)> {
    let tail = match last {
        Some(b) => seq![(bool_expr(true), b)],
        None => Seq::empty(),
    };
    seq![head] + middle + tail
}

/// A branch, up to and with its closing `end` and the whitespace after it.
pub open spec fn p_branch(s: Seq<char>) -> Option<(Seq<char>, Seq<(ExprV, Seq<InstrV>)>)>
    decreases s.len(), 5nat,
{
    match p_branch_parts(s) {
        Some((r, head, middle, last)) => Some((r, branch_paths(head, middle, last))),
        None => None,
    }
}

/// `loop`, a body and `end`.
pub open spec fn p_loop(s: Seq<char>) -> Option<(Seq<char>, Seq<InstrV>)>
    decreases s.len(), 5nat,
{
    match p_ws_tag(s, "loop"@) {
        Some(r) => if r.len() < s.len() {
            match p_body(r) {
                Some((r2, b)) => match p_ws_tag(r2, "end"@) {
                    Some(r3) => Some((r3, b)),
                    None => None,
                },
                None => None,
            }
        } else {
            None
        },
        None => None,
    }
}

/// A function declaration: `let`, its name, its signature, a binder symbol,
/// a body and `end`, each followed by any whitespace.
pub open spec fn p_func(s: Seq<char>) -> Option<(Seq<char>, (Seq<char>, FuncV))> {
    match p_ws_tag(s, "let"@) {
        Some(r) => match p_name(r) {
            Some((r1, name)) => match p_kind(ms(r1)) {
                Some((r2, kind)) => match p_binder(ms(r2)) {
                    Some(r3) => match p_body(r3) {
                        Some((r4, body)) => match p_ws_tag(r4, "end"@) {
                            Some(r5) => Some((r5, (name, FuncV { kind, body }))),
                            None => None,
                        },
                        None => None,
                    },
                    None => None,
                },
                None => None,
            },
            None => None,
        },
        None => None,
    }
}

/// Declarations, one after another, up to the end of the input.
pub open spec fn p_decls(s: Seq<char>) -> Option<Seq<(Seq<char>, FuncV)>>
    decreases s.len(),
{
    if s.len() == 0 {
        Some(Seq::empty())
    } else {
        match p_func(s) {
            Some((r, d)) => if r.len() < s.len() {
                match p_decls(r) {
                    Some(ds) => Some(seq![d] + ds),
                    None => None,
                }
            } else {
                None
            },
            None => None,
        }
    }
}

/// A program: one or more declarations that together take the whole input.
pub open spec fn p_program(s: Seq<char>) -> Option<Seq<(Seq<char>, FuncV)>> {
    if s.len() == 0 {
        None
    } else {
        p_decls(s)
    }
}

/// Where a program that does not parse fails: the input at the start of the
/// first declaration that does not parse, or at the end of the input where it
/// holds none.
pub open spec fn program_failure(s: Seq<char>) -> Seq<char>
    decreases s.len(),
{
    match p_func(s) {
        Some((r, _)) => if r.len() < s.len() && r.len() > 0 {
            program_failure(r)
        } else {
            s
        },
        None => s,
    }
}

/// A line comment: `//` and everything up to the end of the line, which
/// may be nothing.
pub open spec fn p_eol_comment(s: Seq<char>) -> Option<Seq<char>> {
    match p_tag(s, "//"@) {
        Some(r) => Some(r.skip(run_len(r, CharClass::NotNewline) as int)),
        None => None,
    }
}

/// Where the first `*/` in `s` starts.
pub open spec fn find_close(s: Seq<char>) -> Option<int>
    decreases s.len(),
{
    if s.len() < 2 {
        None
    } else if s[0] == '*' && s[1] == '/' {
        Some(0)
    } else {
        match find_close(s.drop_first()) {
            Some(k) => Some(k + 1),
            None => None,
        }
    }
}

/// A block comment: `/*`, anything, and the first `*/` after it.
pub open spec fn p_inline_comment(s: Seq<char>) -> Option<Seq<char>> {
    match p_tag(s, "/*"@) {
        Some(r) => match find_close(r) {
            Some(k) => Some(r.skip(k + 2)),
            None => None,
        },
        None => None,
    }
}

/// `s` without its leading whitespace and line comments.
pub open spec fn skip_filler(s: Seq<char>) -> Seq<char>
    decreases s.len(),
{
    if run_len(s, CharClass::Multispace) > 0 {
        let r = ms(s);
        if r.len() < s.len() {
            skip_filler(r)
        } else {
            s
        }
    } else {
        match p_eol_comment(s) {
            Some(r) => if r.len() < s.len() {
                skip_filler(r)
            } else {
                s
            },
            None => s,
        }
    }
}

} // verus!
