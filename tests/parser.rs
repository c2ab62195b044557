use woland::ast::{Assign, Bind, Branch, Call, Decl, Expr, Func, Instr, Keyword, Kind, Loop, Prim, AST};
use woland::parser::{
    assign, ast, bind, branch, eol_comment, expr, func, inline_comment, instr, keyword, kind,
    loop_, name, name_typed, prim, string, whitespace, ParseError,
};

fn lit(v: i64) -> Expr {
    Expr::Prim(Prim::I64(v))
}

fn dump(args: Vec<Expr>) -> Instr {
    Instr::Expr(Expr::Call(Call { func_name: "dump".to_string(), args }))
}

fn void_func(body: Vec<Instr>) -> Decl {
    Decl::Func(Func { kind: Kind { params: vec![], ret: "Void".to_string() }, body })
}

#[test]
fn prim_i64() {
    assert_eq!(prim("42"), Ok(("", Expr::Prim(Prim::I64(42)))));
}

#[test]
fn prim_bool() {
    assert_eq!(prim("true"), Ok(("", Expr::Prim(Prim::Bool(true)))));
    assert_eq!(prim("false"), Ok(("", Expr::Prim(Prim::Bool(false)))));
}

#[test]
fn basic_call() {
    assert_eq!(
        instr("@dump 666 my_favourite_number\n"),
        Ok((
            "",
            Instr::Expr(Expr::Call(Call {
                func_name: "dump".to_string(),
                args: vec![Expr::Prim(Prim::I64(666)), Expr::Name("my_favourite_number".to_string())]
            }))
        ))
    );
}

#[test]
fn basic_bind() {
    assert_eq!(
        bind("let number: I8 = 69\n"),
        Ok((
            "",
            Instr::Bind(Bind {
                id: "number".to_string(),
                ty: "I8".to_string(),
                expr: Expr::Prim(Prim::I64(69))
            })
        ))
    )
}

#[test]
fn basic_assign() {
    assert_eq!(
        assign("number = 69\n"),
        Ok((
            "",
            Instr::Assign(Assign { name: "number".to_string(), expr: Expr::Prim(Prim::I64(69)) })
        ))
    )
}

#[test]
fn id_with_type() {
    assert_eq!(name_typed("x: I64"), Ok(("", ("x", "I64"))));
}

#[test]
fn kind_no_args() {
    assert_eq!(kind(": I64"), Ok(("", Kind { params: vec![], ret: "I64".to_string() })))
}

#[test]
fn kind_two_args() {
    assert_eq!(
        kind(": (x: I64) -> (y: I64) -> I64"),
        Ok((
            "",
            Kind {
                params: vec![
                    ("x".to_string(), "I64".to_string()),
                    ("y".to_string(), "I64".to_string())
                ],
                ret: "I64".to_string()
            }
        ))
    )
}

#[test]
fn basic_func() {
    assert_eq!(
        func("let main: I32 ~\n    -1\n end"),
        Ok((
            "",
            (
                "main".to_string(),
                Decl::Func(Func {
                    kind: Kind { params: vec![], ret: "I32".to_string() },
                    body: vec![Instr::Expr(Expr::Prim(Prim::I64(-1)))],
                })
            )
        ))
    )
}

#[test]
fn ast_two_funcs() {
    assert_eq!(
        ast("let whatever: I8 =\n   0\n end\n\nlet main: I64 ~\n   -1\n end"),
        Ok((
            "",
            AST {
                decls: vec![
                    (
                        "whatever".to_string(),
                        Decl::Func(Func {
                            kind: Kind { params: vec![], ret: "I8".to_string() },
                            body: vec![Instr::Expr(Expr::Prim(Prim::I64(0)))],
                        })
                    ),
                    (
                        "main".to_string(),
                        Decl::Func(Func {
                            kind: Kind { params: vec![], ret: "I64".to_string() },
                            body: vec![Instr::Expr(Expr::Prim(Prim::I64(-1)))],
                        })
                    ),
                ]
                .into_iter()
                .collect()
            }
        ))
    );
}

#[test]
fn func_with_call() {
    assert_eq!(
        ast("let nothing: Void ~\n   @dump 2021\n end"),
        Ok((
            "",
            (AST {
                decls: vec![(
                    "nothing".to_string(),
                    Decl::Func(Func {
                        kind: Kind { params: vec![], ret: "Void".to_string() },
                        body: vec![Instr::Expr(Expr::Call(Call {
                            func_name: "dump".to_string(),
                            args: vec![Expr::Prim(Prim::I64(2021))]
                        }))],
                    })
                )]
                .into_iter()
                .collect()
            })
        ))
    );
}

#[test]
fn func_with_bind() {
    assert_eq!(
        ast("let main: Void ~\n  let number: I8 = 42\n end"),
        Ok((
            "",
            AST {
                decls: vec![(
                    "main".to_string(),
                    Decl::Func(Func {
                        kind: Kind { params: vec![], ret: "Void".to_string() },
                        body: vec![Instr::Bind(Bind {
                            id: "number".to_string(),
                            ty: "I8".to_string(),
                            expr: Expr::Prim(Prim::I64(42))
                        })],
                    })
                )]
                .into_iter()
                .collect()
            }
        ))
    );
}

#[test]
fn func_with_elsif() {
    assert_eq!(
        ast("let main: Void ~\n if condition1 then\n @dump 1\n elsif condition2 then\n @dump 2\n else\n @dump 0\n end\n end"),
        Ok((
            "",
            AST {
                decls: vec![(
                    "main".to_string(),
                    void_func(vec![Instr::Branch(Branch {
                        paths: vec![
                            (Expr::Name("condition1".to_string()), vec![dump(vec![lit(1)])]),
                            (Expr::Name("condition2".to_string()), vec![dump(vec![lit(2)])]),
                            (Expr::Prim(Prim::Bool(true)), vec![dump(vec![lit(0)])]),
                        ]
                    })])
                )]
            }
        ))
    );
}

#[test]
fn basic_loop() {
    assert_eq!(
        loop_("loop\n @dump 42\n end"),
        Ok((
            "",
            Loop {
                body: vec![Instr::Expr(Expr::Call(Call {
                    func_name: "dump".to_string(),
                    args: vec![Expr::Prim(Prim::I64(42))]
                }))]
            }
        ))
    )
}

#[test]
fn integer_literals_keep_their_value() {
    assert_eq!(prim("9223372036854775807"), Ok(("", lit(i64::MAX))));
    assert_eq!(prim("-9223372036854775808"), Ok(("", lit(i64::MIN))));
    assert_eq!(prim("+17 rest"), Ok((" rest", lit(17))));
    assert_eq!(prim("-0"), Ok(("", lit(0))));
    assert_eq!(prim("007x"), Ok(("x", lit(7))));
}

#[test]
fn integer_literal_out_of_range_fails() {
    assert_eq!(prim("9223372036854775808"), Err(ParseError { input: "9223372036854775808" }));
    assert_eq!(prim("-"), Err(ParseError { input: "-" }));
    assert_eq!(prim("abc"), Err(ParseError { input: "abc" }));
}

#[test]
fn booleans_are_never_names() {
    assert_eq!(name("true"), Err(ParseError { input: "true" }));
    assert_eq!(name("false"), Err(ParseError { input: "false" }));
    assert_eq!(expr("true"), Ok(("", Expr::Prim(Prim::Bool(true)))));
    assert_eq!(expr("false \n"), Ok(("\n", Expr::Prim(Prim::Bool(false)))));
    assert_eq!(name("truth"), Ok(("", "truth")));
}

#[test]
fn reserved_words_are_not_names() {
    for w in ["let", "end", "if", "then", "else", "loop", "break"] {
        assert_eq!(name(w), Err(ParseError { input: w }));
    }
    assert_eq!(name("elsif x"), Ok((" x", "elsif")));
    assert_eq!(name("_a1 b"), Ok((" b", "_a1")));
    assert_eq!(name("1a"), Err(ParseError { input: "1a" }));
}

#[test]
fn else_is_a_true_path_after_any_elsif() {
    let src = "if a then\n @f\n elsif b then\n @g\n elsif c then\n @h\n else\n @k\n end";
    let (rest, b) = branch(src).unwrap();
    assert_eq!(rest, "");
    assert_eq!(b.paths.len(), 4);
    assert_eq!(b.paths[3].0, Expr::Prim(Prim::Bool(true)));
    let call = |f: &str| vec![Instr::Expr(Expr::Call(Call { func_name: f.to_string(), args: vec![] }))];
    assert_eq!(b.paths[3].1, call("k"));
    assert_eq!(b.paths[1], (Expr::Name("b".to_string()), call("g")));
}

#[test]
fn else_without_elsif_is_the_second_path() {
    let (_, b) = branch("if a then\n @f\n else\n @k\n end").unwrap();
    assert_eq!(b.paths.len(), 2);
    assert_eq!(b.paths[1].0, Expr::Prim(Prim::Bool(true)));
}

#[test]
fn branch_without_else_has_no_true_path() {
    let (rest, b) = branch("if a then\n @f\n end\n").unwrap();
    assert_eq!(rest, "");
    assert_eq!(b.paths.len(), 1);
}

#[test]
fn binder_symbols_are_interchangeable() {
    assert_eq!(assign("n ~ 1\n"), assign("n = 1\n"));
    assert_eq!(bind("let x: I8 ~ 1\n"), bind("let x: I8 = 1\n"));
    assert_eq!(bind("let number: I8 ~ 69\n"), bind("let number: I8 = 69\n"));
    assert_eq!(bind("let mut x: I8 ~ 1\n"), bind("let mut x: I8 = 1\n"));
    assert_eq!(
        assign("number ~ 69\n"),
        Ok(("", Instr::Assign(Assign { name: "number".to_string(), expr: lit(69) })))
    );
    assert_eq!(
        func("let f: I8 ~\n x = 1\n let y: I8 ~ 2\n end"),
        func("let f: I8 =\n x ~ 1\n let y: I8 = 2\n end")
    );
    assert_eq!(func("let f: I8 ~\n 1\n end"), func("let f: I8 =\n 1\n end"));
}

#[test]
fn parsing_twice_gives_the_same_tree() {
    let src = "let f: (a: I8) -> I8 ~\n @g a \"s\"\n loop\n break\n end\n end\n";
    assert_eq!(ast(src), ast(src));
    assert!(ast(src).is_ok());
}

#[test]
fn missing_end_fails() {
    let src = "let main: I32 ~\n  -1\n";
    assert_eq!(func(src), Err(ParseError { input: src }));
    assert_eq!(ast(src), Err(ParseError { input: src }));
}

#[test]
fn program_fails_at_the_bad_declaration() {
    let src = "let a: I8 ~\n 1\n end\nlet b: I8 ~\n 2\n";
    assert_eq!(ast(src), Err(ParseError { input: "let b: I8 ~\n 2\n" }));
    assert_eq!(ast(""), Err(ParseError { input: "" }));
}

#[test]
fn duplicate_names_are_kept_in_order() {
    let (_, a) = ast("let f: I8 ~\n 1\n end\nlet f: I8 ~\n 2\n end").unwrap();
    assert_eq!(a.decls.len(), 2);
    assert_eq!(a.decls[1].0, "f");
}

#[test]
fn strings_are_verbatim() {
    assert_eq!(string("\"a\\nb\" x"), Ok((" x", Expr::Prim(Prim::Str("a\\nb".to_string())))));
    assert_eq!(string("\"open"), Err(ParseError { input: "\"open" }));
    assert_eq!(expr("( \"s\" )"), Ok(("", Expr::Prim(Prim::Str("s".to_string())))));
}

#[test]
fn parenthesised_expressions() {
    assert_eq!(expr("(x)  y"), Ok(("y", Expr::Name("x".to_string()))));
    assert_eq!(
        expr("(@f 1 2)"),
        Ok(("", Expr::Call(Call { func_name: "f".to_string(), args: vec![lit(1), lit(2)] })))
    );
    assert_eq!(
        instr("@f @g 1\n"),
        Ok((
            "",
            Instr::Expr(Expr::Call(Call {
                func_name: "f".to_string(),
                args: vec![Expr::Call(Call { func_name: "g".to_string(), args: vec![lit(1)] })]
            }))
        ))
    );
}

#[test]
fn keywords_and_mutable_binds() {
    assert_eq!(keyword("break"), Ok(("", Keyword::Break)));
    assert_eq!(keyword("..."), Ok(("", Keyword::Ellipsis)));
    assert_eq!(instr("...\n"), Ok(("", Instr::Keyword(Keyword::Ellipsis))));
    assert_eq!(
        instr("let mut (n: I64) = 1\n"),
        Ok(("", Instr::MutBind(Bind { id: "n".to_string(), ty: "I64".to_string(), expr: lit(1) })))
    );
}

#[test]
fn comments() {
    assert_eq!(eol_comment("// note\nx"), Ok(("\nx", ())));
    assert_eq!(eol_comment("//\nx"), Ok(("\nx", ())));
    assert_eq!(eol_comment("//"), Ok(("", ())));
    assert_eq!(eol_comment("/ x"), Err(ParseError { input: "/ x" }));
    assert_eq!(whitespace("//\nx"), Ok(("x", ())));
    assert_eq!(whitespace("// a\n//\n  //"), Ok(("", ())));
    assert_eq!(inline_comment("/* a */b"), Ok(("b", ())));
    assert_eq!(inline_comment("/* a"), Err(ParseError { input: "/* a" }));
    assert_eq!(whitespace("  // c\n\t x"), Ok(("x", ())));
    assert_eq!(whitespace("x"), Ok(("x", ())));
}

#[test]
fn lookup_by_name_takes_the_last_declaration() {
    let (_, a) = ast("let f: I8 ~\n 1\n end\nlet g: I8 ~\n 3\n end\nlet f: I8 ~\n 2\n end").unwrap();
    let expected = Decl::Func(Func {
        kind: Kind { params: vec![], ret: "I8".to_string() },
        body: vec![Instr::Expr(lit(2))],
    });
    assert_eq!(a.get("f"), Some(&expected));
    assert!(a.get("g").is_some());
    assert_eq!(a.get("h"), None);
}
