//! Properties of the grammar as a whole, proved from the rules in `grammar`.
use vstd::prelude::*;
use crate::ast::{AST, ExprV, PrimV};
use crate::grammar::{
    CharClass, in_class, run_len, is_digit, digits_value, sign_len, signed_value, p_i64, p_prim,
    p_name, bool_expr, p_expr, p_paren, sp, ms, p_binder, p_branch, p_branch_parts, p_program,
    p_decls, p_func, p_assign, is_ident_start, is_reserved, p_bind, p_tag, p_body,
};
use crate::ast::{FuncV, InstrV, BindV, KindV, decl_map};

verus! {

/// The character of a decimal digit.
pub open spec fn digit_char(d: nat) -> char {
    if d == 0 {
        '0'
    } else if d == 1 {
        '1'
    } else if d == 2 {
        '2'
    } else if d == 3 {
        '3'
    } else if d == 4 {
        '4'
    } else if d == 5 {
        '5'
    } else if d == 6 {
        '6'
    } else if d == 7 {
        '7'
    } else if d == 8 {
        '8'
    } else {
        '9'
    }
}

/// The decimal digits of `n`, without leading zeros.
pub open spec fn decimal(n: nat) -> Seq<char>
    decreases n,
{
    if n < 10 {
        seq![digit_char(n)]
    } else {
        decimal(n / 10).push(digit_char(n % 10))
    }
}

/// The usual text of an integer: a `-` before negative ones.
pub open spec fn int_text(v: int) -> Seq<char> {
    if v < 0 {
        seq!['-'] + decimal((-v) as nat)
    } else {
        decimal(v as nat)
    }
}

proof fn lemma_digit_char(d: nat)
    requires
        d < 10,
    ensures
        digit_char(d) as int - '0' as int == d,
        is_digit(digit_char(d)),
{
}

proof fn lemma_decimal(n: nat)
    ensures
        decimal(n).len() > 0,
        forall|i: int| 0 <= i < decimal(n).len() ==> is_digit(#[trigger] decimal(n)[i]),
        digits_value(decimal(n)) == n,
    decreases n,
{
    if n < 10 {
        lemma_digit_char(n);
        assert(decimal(n).drop_last() =~= Seq::<char>::empty());
        assert(digits_value(Seq::<char>::empty()) == 0);
        assert(decimal(n).last() == digit_char(n));
    } else {
        lemma_digit_char(n % 10);
        lemma_decimal(n / 10);
        let d = decimal(n);
        assert(d.drop_last() =~= decimal(n / 10));
        assert(digits_value(d) == digits_value(decimal(n / 10)) * 10 + (n % 10)) by {
            assert(d.last() == digit_char(n % 10));
        }
        assert((n / 10) * 10 + n % 10 == n) by (nonlinear_arith);
        assert forall|i: int| 0 <= i < d.len() implies is_digit(#[trigger] d[i]) by {
            if i < d.len() - 1 {
                assert(d[i] == decimal(n / 10)[i]);
            }
        }
    }
}

proof fn lemma_run_of_digits(s: Seq<char>)
    requires
        forall|i: int| 0 <= i < s.len() ==> is_digit(#[trigger] s[i]),
    ensures
        run_len(s, CharClass::Digit) == s.len(),
    decreases s.len(),
{
    if s.len() > 0 {
        assert(in_class(s[0], CharClass::Digit));
        assert forall|i: int| 0 <= i < s.drop_first().len() implies is_digit(
            #[trigger] s.drop_first()[i],
        ) by {
            assert(s.drop_first()[i] == s[i + 1]);
        }
        lemma_run_of_digits(s.drop_first());
    }
}

/// Every integer in the range of `i64`, written in decimal, reads back as
/// the same integer literal, with nothing left over.
pub proof fn lemma_integer_round_trip(v: i64)
    ensures
        p_prim(int_text(v as int)) == Some((Seq::<char>::empty(), ExprV::Prim(PrimV::I64(v)))),
{
    let s = int_text(v as int);
    let n: nat = if v < 0 {
        (-v) as nat
    } else {
        v as nat
    };
    lemma_decimal(n);
    let body = decimal(n);
    if v < 0 {
        assert(s.skip(1) =~= body);
    } else {
        assert(s.skip(0) =~= body);
    }
    assert(sign_len(s) == if v < 0 { 1int } else { 0int });
    assert(s.skip(sign_len(s)) == body);
    lemma_run_of_digits(body);
    assert(body.take(body.len() as int) =~= body);
    assert(signed_value(s) == v);
    assert(body.skip(body.len() as int) =~= Seq::<char>::empty());
    assert(p_i64(s) == Some((Seq::<char>::empty(), v)));
    reveal_strlit("true");
    reveal_strlit("false");
    assert(s[0] == '-' || is_digit(s[0]));
    if "true"@.len() <= s.len() {
        assert(s.take(4)[0] != "true"@[0]);
    }
    if "false"@.len() <= s.len() {
        assert(s.take(5)[0] != "false"@[0]);
    }
}

/// `true` and `false` are read as boolean literals, whatever follows them,
/// and the name rule never yields either word.
pub proof fn lemma_booleans(t: Seq<char>, s: Seq<char>)
    ensures
        p_prim("true"@ + t) == Some((t, bool_expr(true))),
        p_prim("false"@ + t) == Some((t, bool_expr(false))),
        p_expr("true"@ + t) == Some((sp(t), bool_expr(true))),
        p_expr("false"@ + t) == Some((sp(t), bool_expr(false))),
        p_name(s) matches Some((_, w)) ==> w != "true"@ && w != "false"@,
{
    reveal_strlit("true");
    reveal_strlit("false");
    reveal_strlit("(");
    let a = "true"@ + t;
    assert(a.take(4) =~= "true"@);
    assert(a.skip(4) =~= t);
    let b = "false"@ + t;
    assert(b.take(5) =~= "false"@);
    assert(b.skip(5) =~= t);
    if b.len() >= 4 {
        assert(b.take(4)[0] != "true"@[0]);
    }
    assert(a[0] != '(');
    assert(b[0] != '(');
    if a.len() >= 1 {
        assert(a.take(1)[0] != "("@[0]);
    }
    if b.len() >= 1 {
        assert(b.take(1)[0] != "("@[0]);
    }
    assert(p_paren(a) is None);
    assert(p_paren(b) is None);
}

/// A branch with an `else` body ends with a path whose condition is the
/// literal `true` and whose body is the `else` body, after the `if` path and
/// every `elsif` path.
pub proof fn lemma_else_is_last(s: Seq<char>)
    ensures
        p_branch_parts(s) matches Some((r, head, middle, Some(b))) ==> p_branch(s) matches Some(
            (r2, paths),
        ) && r2 == r && paths.len() == middle.len() + 2 && paths.last() == (bool_expr(true), b)
            && paths[0] == head,
{
}

/// The two binder symbols are read alike: whatever follows, `~` and `=`
/// leave the same input, and every rule reads a binder symbol through this
/// one rule.
pub proof fn lemma_binders_agree(t: Seq<char>)
    ensures
        p_binder(seq!['~'] + t) == p_binder(seq!['='] + t),
        p_binder(seq!['~'] + t) == Some(ms(t)),
{
    reveal_strlit("~");
    reveal_strlit("=");
    let a = seq!['~'] + t;
    let b = seq!['='] + t;
    assert(a.take(1) =~= "~"@);
    assert(a.skip(1) =~= t);
    assert(b.take(1) =~= "="@);
    assert(b.skip(1) =~= t);
    assert(b.take(1)[0] != "~"@[0]);
}

/// Every character of `s` is in class `k`.
pub open spec fn all_in(s: Seq<char>, k: CharClass) -> bool {
    forall|i: int| 0 <= i < s.len() ==> in_class(#[trigger] s[i], k)
}

proof fn lemma_run_len_concat(x: Seq<char>, z: Seq<char>, k: CharClass)
    requires
        all_in(x, k),
        z.len() == 0 || !in_class(z[0], k),
    ensures
        run_len(x + z, k) == x.len(),
    decreases x.len(),
{
    if x.len() == 0 {
        assert(x + z =~= z);
    } else {
        assert((x + z).drop_first() =~= x.drop_first() + z);
        assert((x + z)[0] == x[0]);
        assert(in_class(x[0], k));
        assert forall|i: int| 0 <= i < x.drop_first().len() implies in_class(
            #[trigger] x.drop_first()[i],
            k,
        ) by {
            assert(x.drop_first()[i] == x[i + 1]);
        }
        lemma_run_len_concat(x.drop_first(), z, k);
    }
}

proof fn lemma_name_then(id: Seq<char>, w: Seq<char>, z: Seq<char>)
    requires
        id.len() > 0,
        is_ident_start(id[0]),
        all_in(id, CharClass::Ident),
        !is_reserved(id),
        all_in(w, CharClass::Multispace),
        z.len() > 0,
        !in_class(z[0], CharClass::Multispace),
        !in_class(z[0], CharClass::Ident),
    ensures
        p_name(id + w + z) == Some((w + z, id)),
        ms(w + z) == z,
{
    let r = w + z;
    let s = id + w + z;
    assert(s =~= id + r);
    assert(r[0] == if w.len() > 0 { w[0] } else { z[0] });
    if w.len() > 0 {
        assert(in_class(w[0], CharClass::Multispace));
    }
    lemma_run_len_concat(id, r, CharClass::Ident);
    assert(s[0] == id[0]);
    assert(s.take(id.len() as int) =~= id);
    assert(s.skip(id.len() as int) =~= r);
    lemma_run_len_concat(w, z, CharClass::Multispace);
    assert(r.skip(w.len() as int) =~= z);
}

proof fn lemma_skip_ws(w: Seq<char>, z: Seq<char>)
    requires
        all_in(w, CharClass::Multispace),
        z.len() == 0 || !in_class(z[0], CharClass::Multispace),
    ensures
        ms(w + z) == z,
{
    lemma_run_len_concat(w, z, CharClass::Multispace);
    assert((w + z).skip(w.len() as int) =~= z);
}

/// The text of a binding up to its binder symbol: `let`, an identifier and
/// a type name, with the given whitespace between them.
pub open spec fn bind_head(
    w1: Seq<char>,
    id: Seq<char>,
    w2: Seq<char>,
    w3: Seq<char>,
    ty: Seq<char>,
    w4: Seq<char>,
) -> Seq<char> {
    "let"@ + w1 + id + w2 + ":"@ + w3 + ty + w4
}

/// An identifier that is not reserved.
pub open spec fn is_identifier(id: Seq<char>) -> bool {
    id.len() > 0 && is_ident_start(id[0]) && all_in(id, CharClass::Ident) && !is_reserved(id)
}

proof fn lemma_bind_parts(
    w1: Seq<char>,
    id: Seq<char>,
    w2: Seq<char>,
    w3: Seq<char>,
    ty: Seq<char>,
    w4: Seq<char>,
    b: char,
    t: Seq<char>,
)
    requires
        is_identifier(id),
        is_identifier(ty),
        !(id.len() >= 3 && id.take(3) == "mut"@),
        all_in(w1, CharClass::Multispace),
        all_in(w2, CharClass::Multispace),
        all_in(w3, CharClass::Multispace),
        all_in(w4, CharClass::Multispace),
        b == '~' || b == '=',
    ensures
        p_bind(bind_head(w1, id, w2, w3, ty, w4) + seq![b] + t) == match p_expr(ms(t)) {
            Some((r4, e)) => match crate::grammar::p_newline(r4) {
                Some(r5) => Some((r5, InstrV::Bind(BindV { id, ty, expr: e }))),
                None => None,
            },
            None => None,
        },
{
    reveal_strlit("let");
    reveal_strlit("mut");
    reveal_strlit(":");
    reveal_strlit("(");
    reveal_strlit(")");
    reveal_strlit("~");
    reveal_strlit("=");
    let s = bind_head(w1, id, w2, w3, ty, w4) + seq![b] + t;
    let tail_b = seq![b] + t;
    let after_ty = w4 + tail_b;
    let after_colon = w3 + ty + after_ty;
    let rest1 = w2 + (":"@ + after_colon);
    let z1 = w1 + (id + rest1);
    assert(s =~= "let"@ + z1);
    assert(s.take(3) =~= "let"@);
    assert(s.skip(3) =~= z1);
    lemma_skip_ws(w1, id + rest1);
    let x = id + rest1;
    // no `mut`
    assert(x[id.len() as int] == if w2.len() > 0 { w2[0] } else { ':' });
    if w2.len() > 0 {
        assert(in_class(w2[0], CharClass::Multispace));
    }
    if x.len() >= 3 {
        if id.len() >= 3 {
            assert(x.take(3) =~= id.take(3));
        } else {
            assert(x.take(3)[id.len() as int] != "mut"@[id.len() as int]);
        }
    }
    assert(p_tag(x, "mut"@) is None);
    // no `(`
    assert(x.take(1)[0] != "("@[0]);
    assert(p_tag(x, "("@) is None);
    // the identifier, then `:`
    assert(x =~= id + w2 + (":"@ + after_colon));
    lemma_name_then(id, w2, ":"@ + after_colon);
    let c = ":"@ + after_colon;
    assert(c.take(1) =~= ":"@);
    assert(c.skip(1) =~= after_colon);
    // the type name
    assert(after_colon =~= w3 + (ty + after_ty));
    assert(ty[0] == (ty + after_ty)[0]);
    lemma_skip_ws(w3, ty + after_ty);
    assert(ty + after_ty =~= ty + w4 + tail_b);
    lemma_name_then(ty, w4, tail_b);
    // no `)`
    assert(after_ty[0] == if w4.len() > 0 { w4[0] } else { b });
    if w4.len() > 0 {
        assert(in_class(w4[0], CharClass::Multispace));
    }
    assert(after_ty.take(1)[0] != ")"@[0]);
    assert(p_tag(after_ty, ")"@) is None);
    assert(ms(after_ty) == tail_b);
    lemma_binders_agree(t);
    assert(tail_b.take(1) =~= seq![b]);
    assert(tail_b.skip(1) =~= t);
    if b == '=' {
        assert(tail_b.take(1)[0] != "~"@[0]);
    }
    assert(p_binder(tail_b) == Some(ms(t)));
}

/// A binding reads the same with either binder symbol: for any identifier
/// and type name, the whitespace round them, and the text after the binder,
/// writing `~` or `=` gives the same result.
pub proof fn lemma_bind_binders_agree(
    w1: Seq<char>,
    id: Seq<char>,
    w2: Seq<char>,
    w3: Seq<char>,
    ty: Seq<char>,
    w4: Seq<char>,
    t: Seq<char>,
)
    requires
        is_identifier(id),
        is_identifier(ty),
        !(id.len() >= 3 && id.take(3) == "mut"@),
        all_in(w1, CharClass::Multispace),
        all_in(w2, CharClass::Multispace),
        all_in(w3, CharClass::Multispace),
        all_in(w4, CharClass::Multispace),
    ensures
        p_bind(bind_head(w1, id, w2, w3, ty, w4) + seq!['~'] + t) == p_bind(
            bind_head(w1, id, w2, w3, ty, w4) + seq!['='] + t,
        ),
{
    lemma_bind_parts(w1, id, w2, w3, ty, w4, '~', t);
    lemma_bind_parts(w1, id, w2, w3, ty, w4, '=', t);
}

/// The text of a declaration up to its binder symbol: `let`, its name, `:`
/// and a return type name without parameters, with the given whitespace
/// between them.
pub open spec fn func_head(
    w1: Seq<char>,
    name: Seq<char>,
    w2: Seq<char>,
    w3: Seq<char>,
    ret: Seq<char>,
    w4: Seq<char>,
) -> Seq<char> {
    "let"@ + w1 + name + w2 + ":"@ + w3 + ret + w4
}

proof fn lemma_func_parts(
    w1: Seq<char>,
    name: Seq<char>,
    w2: Seq<char>,
    w3: Seq<char>,
    ret: Seq<char>,
    w4: Seq<char>,
    b: char,
    t: Seq<char>,
)
    requires
        is_identifier(name),
        is_identifier(ret),
        all_in(w1, CharClass::Multispace),
        all_in(w2, CharClass::Multispace),
        all_in(w3, CharClass::Multispace),
        all_in(w4, CharClass::Multispace),
        b == '~' || b == '=',
    ensures
        p_func(func_head(w1, name, w2, w3, ret, w4) + seq![b] + t) == match p_body(ms(t)) {
            Some((r4, body)) => match crate::grammar::p_ws_tag(r4, "end"@) {
                Some(r5) => Some(
                    (r5, (name, FuncV { kind: KindV { params: Seq::empty(), ret }, body })),
                ),
                None => None,
            },
            None => None,
        },
{
    reveal_strlit("let");
    reveal_strlit(":");
    reveal_strlit("(");
    reveal_strlit("~");
    reveal_strlit("=");
    let s = func_head(w1, name, w2, w3, ret, w4) + seq![b] + t;
    let tail_b = seq![b] + t;
    let after_ret = w4 + tail_b;
    let y = ret + after_ret;
    let c = ":"@ + (w3 + y);
    let z1 = w1 + (name + (w2 + c));
    assert(s =~= "let"@ + z1);
    assert(s.take(3) =~= "let"@);
    assert(s.skip(3) =~= z1);
    lemma_skip_ws(w1, name + (w2 + c));
    assert(name + (w2 + c) =~= name + w2 + c);
    lemma_name_then(name, w2, c);
    assert(c.take(1) =~= ":"@);
    assert(c.skip(1) =~= w3 + y);
    assert(y[0] == ret[0]);
    lemma_skip_ws(w3, y);
    // the signature has no parameters
    assert(y.take(1)[0] != "("@[0]);
    assert(p_tag(y, "("@) is None);
    assert(y =~= ret + w4 + tail_b);
    lemma_name_then(ret, w4, tail_b);
    assert(tail_b[0] == b);
    assert(tail_b.take(1)[0] != ":"@[0]);
    assert(p_tag(tail_b, ":"@) is None);
    assert(crate::grammar::p_params(y) == Some((y, Seq::<(Seq<char>, Seq<char>)>::empty())));
    lemma_skip_ws(Seq::empty(), tail_b);
    assert(Seq::<char>::empty() + tail_b =~= tail_b);
    lemma_binders_agree(t);
    assert(tail_b.take(1) =~= seq![b]);
    assert(tail_b.skip(1) =~= t);
    if b == '=' {
        assert(tail_b.take(1)[0] != "~"@[0]);
    }
    assert(p_binder(tail_b) == Some(ms(t)));
}

/// A declaration reads the same with either binder symbol: for any name and
/// return type, the whitespace round them, and the text after the binder,
/// writing `~` or `=` gives the same result.
pub proof fn lemma_func_binders_agree(
    w1: Seq<char>,
    name: Seq<char>,
    w2: Seq<char>,
    w3: Seq<char>,
    ret: Seq<char>,
    w4: Seq<char>,
    t: Seq<char>,
)
    requires
        is_identifier(name),
        is_identifier(ret),
        all_in(w1, CharClass::Multispace),
        all_in(w2, CharClass::Multispace),
        all_in(w3, CharClass::Multispace),
        all_in(w4, CharClass::Multispace),
    ensures
        p_func(func_head(w1, name, w2, w3, ret, w4) + seq!['~'] + t) == p_func(
            func_head(w1, name, w2, w3, ret, w4) + seq!['='] + t,
        ),
{
    lemma_func_parts(w1, name, w2, w3, ret, w4, '~', t);
    lemma_func_parts(w1, name, w2, w3, ret, w4, '=', t);
}

proof fn lemma_assign_parts(id: Seq<char>, w: Seq<char>, b: char, t: Seq<char>)
    requires
        id.len() > 0,
        is_ident_start(id[0]),
        all_in(id, CharClass::Ident),
        !is_reserved(id),
        all_in(w, CharClass::Multispace),
        b == '~' || b == '=',
    ensures
        p_name(id + w + seq![b] + t) == Some((w + seq![b] + t, id)),
        ms(w + seq![b] + t) == seq![b] + t,
{
    let z = w + seq![b] + t;
    let s = id + w + seq![b] + t;
    assert(s =~= id + z);
    assert(z[0] == if w.len() > 0 { w[0] } else { b });
    if w.len() > 0 {
        assert(in_class(w[0], CharClass::Multispace));
    }
    lemma_run_len_concat(id, z, CharClass::Ident);
    assert(s[0] == id[0]);
    assert(s.take(id.len() as int) =~= id);
    assert(s.skip(id.len() as int) =~= z);
    let z2 = seq![b] + t;
    assert(z =~= w + z2);
    assert(z2[0] == b);
    lemma_run_len_concat(w, z2, CharClass::Multispace);
    assert(z.skip(w.len() as int) =~= z2);
}

/// An assignment reads the same with either binder symbol: for any
/// identifier, whitespace after it, and text after the binder, writing `~`
/// or `=` gives the same result.
pub proof fn lemma_assign_binders_agree(id: Seq<char>, w: Seq<char>, t: Seq<char>)
    requires
        id.len() > 0,
        is_ident_start(id[0]),
        all_in(id, CharClass::Ident),
        !is_reserved(id),
        all_in(w, CharClass::Multispace),
    ensures
        p_assign(id + w + seq!['~'] + t) == p_assign(id + w + seq!['='] + t),
{
    lemma_assign_parts(id, w, '~', t);
    lemma_assign_parts(id, w, '=', t);
    lemma_binders_agree(t);
}

/// A program of two declarations, one after the other, parses to both, in
/// order; each name maps to its own declaration (the later one where the
/// names are the same).
pub proof fn lemma_two_declarations(
    a: Seq<char>,
    b: Seq<char>,
    d1: (Seq<char>, FuncV),
    d2: (Seq<char>, FuncV),
)
    requires
        a.len() > 0,
        b.len() > 0,
        p_func(a + b) == Some((b, d1)),
        p_func(b) == Some((Seq::<char>::empty(), d2)),
    ensures
        p_program(a + b) == Some(seq![d1, d2]),
        decl_map(seq![d1, d2]).contains_key(d1.0),
        decl_map(seq![d1, d2]).contains_key(d2.0),
        decl_map(seq![d1, d2])[d2.0] == d2.1,
        d1.0 != d2.0 ==> decl_map(seq![d1, d2])[d1.0] == d1.1,
{
    assert(p_decls(Seq::<char>::empty()) == Some(Seq::<(Seq<char>, FuncV)>::empty()));
    assert(seq![d2] + Seq::<(Seq<char>, FuncV)>::empty() =~= seq![d2]);
    assert(p_decls(b) == Some(seq![d2]));
    assert(seq![d1] + seq![d2] =~= seq![d1, d2]);
    let ds = seq![d1, d2];
    assert(ds.drop_last() =~= seq![d1]);
    assert(seq![d1].drop_last() =~= Seq::<(Seq<char>, FuncV)>::empty());
    assert(decl_map(Seq::<(Seq<char>, FuncV)>::empty()) == Map::<Seq<char>, FuncV>::empty());
    assert(seq![d1].last() == d1);
    assert(ds.last() == d2);
    assert(decl_map(seq![d1]) == Map::<Seq<char>, FuncV>::empty().insert(d1.0, d1.1));
    assert(decl_map(ds) == decl_map(seq![d1]).insert(d2.0, d2.1));
}

/// A declaration that parses, followed by one that does not (one without
/// its closing `end`, say), makes the whole program fail: the first is never
/// returned on its own.
pub proof fn lemma_bad_second_declaration(a: Seq<char>, b: Seq<char>, d1: (Seq<char>, FuncV))
    requires
        a.len() > 0,
        b.len() > 0,
        p_func(a + b) == Some((b, d1)),
        p_func(b) is None,
    ensures
        p_program(a + b) is None,
{
    assert(p_decls(b) is None);
    assert((a + b).len() > b.len());
}

/// Parsing is a function of the input: two trees that a program parses to
/// are the same tree.
pub proof fn lemma_parse_deterministic(s: Seq<char>, a: AST, b: AST)
    requires
        p_program(s) == Some(a@),
        p_program(s) == Some(b@),
    ensures
        a@ == b@,
{
}

/// A program never parses to a truncated tree: where a declaration parses
/// and what follows it does not, the whole program fails; and a program that
/// parses has at least one declaration.
pub proof fn lemma_no_truncation(s: Seq<char>)
    ensures
        p_func(s) matches Some((r, _)) ==> (r.len() > 0 && p_program(r) is None ==> p_program(
            s,
        ) is None),
        p_program(s) matches Some(ds) ==> ds.len() > 0,
{
    if let Some((r, _)) = p_func(s) {
        if r.len() > 0 && p_program(r) is None {
            assert(p_decls(r) is None);
        }
    }
    if s.len() > 0 {
        if let Some((r, d)) = p_func(s) {
            if r.len() < s.len() {
                if let Some(ds) = p_decls(r) {
                    assert((seq![d] + ds).len() > 0);
                }
            }
        }
    }
}

} // verus!
