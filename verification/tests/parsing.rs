use ecc::ast::{
    BlockItemKind, BlockItemList, CompoundStatement, Declaration, DeclarationKind,
    DeclarationSpecifierKind, Expression, ExpressionKind,
    ExternalDeclaration, ExternalDeclarationKind, List, ListKind, PrimaryBlockKind,
    SelectionStatementKind, Statement, StatementKind, TranslationUnit, TypeSpecifierKind,
    TypeSpecifierQualifierKind, UnlabeledStatement, UnlabeledStatementKind,
};
use ecc::lexer::Lexer;
use ecc::parser::{Expected, ParseErr, Parser};
use ecc::token::{At, Token, TokenKind};

/// The items of a list, first to last.
fn items<T>(list: &List<T>) -> Vec<&T> {
    match &list.kind {
        ListKind::Leaf(item) => vec![&**item],
        ListKind::Cons(left, item) => {
            let mut all = items(left);
            all.push(&**item);
            all
        }
    }
}

fn parse_ok(src: &str) -> bool {
    let (tokens, _) = Lexer::new(src).lex();
    Parser::new(&tokens).parse().0.is_ok()
}

/// How many external declarations are read from the beginning of `src`.
fn read(src: &str) -> usize {
    let (tokens, _) = Lexer::new(src).lex();
    match Parser::new(&tokens).parse().0 {
        Ok(unit) => items(&unit).len(),
        Err(()) => 0,
    }
}

/// Parses `src` and hands the external declarations to `check`.
fn with_unit(src: &str, check: impl FnOnce(Vec<&ExternalDeclaration<'_>>)) {
    let (tokens, _) = Lexer::new(src).lex();
    let (unit, errors) = Parser::new(&tokens).parse();
    assert_eq!(errors, vec![], "{src}");
    let unit: TranslationUnit<'_> = unit.expect(src);
    check(items(&unit));
}

/// The block items of the body of the function that `declaration` defines.
fn body<'t, 'a>(declaration: &'t ExternalDeclaration<'a>) -> Vec<&'t ecc::ast::BlockItem<'a>> {
    let ExternalDeclarationKind::Function(function) = &declaration.kind else {
        panic!("not a function definition: {declaration:?}");
    };
    let CompoundStatement { items: Some(list), .. } = &function.body else {
        panic!("empty body");
    };
    let list: &BlockItemList<'a> = list;
    items(list)
}

fn unlabeled<'t, 'a>(item: &'t ecc::ast::BlockItem<'a>) -> &'t UnlabeledStatement<'a> {
    let BlockItemKind::Unlabeled(statement) = &item.kind else {
        panic!("not a statement: {item:?}");
    };
    statement
}

fn expression<'t, 'a>(item: &'t ecc::ast::BlockItem<'a>) -> &'t Expression<'a> {
    let UnlabeledStatementKind::Expression(statement) = &unlabeled(item).kind else {
        panic!("not an expression statement: {item:?}");
    };
    statement.expression.as_ref().expect("an expression")
}

fn declaration<'t, 'a>(item: &'t ecc::ast::BlockItem<'a>) -> &'t Declaration<'a> {
    let BlockItemKind::Declaration(declaration) = &item.kind else {
        panic!("not a declaration: {item:?}");
    };
    declaration
}

/// The typedef name that is the first specifier of `declaration`.
fn first_typedef_name<'a>(declaration: &Declaration<'a>) -> Option<&'a str> {
    let DeclarationKind::Normal { specifiers, .. } = &declaration.kind else {
        return None;
    };
    let DeclarationSpecifierKind::Type(specifier) = &specifiers.specifier.kind else {
        return None;
    };
    let TypeSpecifierQualifierKind::TypeSpecifier(specifier) = &specifier.kind else {
        return None;
    };
    match specifier.kind {
        TypeSpecifierKind::TypedefName(name) => Some(name),
        _ => None,
    }
}

#[test]
fn declaration_with_a_typedef_name_declared_before() {
    with_unit("typedef int T; void f(void) { T x; }", |unit| {
        assert_eq!(unit.len(), 2);
        let block = body(unit[1]);
        assert_eq!(block.len(), 1);
        assert_eq!(first_typedef_name(declaration(block[0])), Some("T"));
    });
}

#[test]
fn typedef_name_declared_after_use_is_no_type() {
    let src = "void f(void) { T x; } typedef int T;";
    let (tokens, _) = Lexer::new(src).lex();
    let (unit, errors) = Parser::new(&tokens).parse();
    assert_eq!(unit, Err(()));
    assert_eq!(errors, vec![ParseErr { at: tokens[0], expected: Expected::ExternalDeclaration }]);
}

#[test]
fn typedef_name_ends_with_its_block() {
    assert!(parse_ok("void f(void) { typedef int T; T x; }"));
    assert!(parse_ok("void f(void) { typedef int T; { T x; } }"));
    assert!(!parse_ok("void f(void) { { typedef int T; } T x; }"));
    assert_eq!(read("void f(void) { typedef int T; } void g(void) { T x; }"), 1);
    assert_eq!(read("void f(void) { typedef int T; } void g(void) { int x; }"), 2);
}

#[test]
fn typedef_name_of_a_for_clause_ends_with_the_loop() {
    assert!(parse_ok("void f(void) { for (typedef int T;;) { T x; } }"));
    assert!(!parse_ok("void f(void) { for (typedef int T;;) ; T x; }"));
}

#[test]
fn typedef_declares_every_declarator() {
    assert_eq!(read("typedef int A, *B, (*C)(int), D[3]; A a; B b; C c; D d;"), 5);
}

#[test]
fn cast_with_a_typedef_name() {
    with_unit("typedef int T; void f(void) { (T)x; }", |unit| {
        let block = body(unit[1]);
        let ExpressionKind::Cast { typename, right, .. } = &expression(block[0]).kind else {
            panic!("not a cast: {:?}", block[0]);
        };
        let TypeSpecifierQualifierKind::TypeSpecifier(specifier) =
            &typename.specifier_qualifiers.specifier_qualifier.kind
        else {
            panic!("not a type specifier");
        };
        assert_eq!(specifier.kind, TypeSpecifierKind::TypedefName("T"));
        assert_eq!(right.kind, ExpressionKind::Identifier("x"));
    });
}

#[test]
fn parenthesized_name_in_front_of_a_name_is_no_cast() {
    assert!(!parse_ok("void f(void) { (y)x; }"));
    with_unit("void f(void) { (y); }", |unit| {
        let block = body(unit[0]);
        let ExpressionKind::Parenthesized { inner, .. } = &expression(block[0]).kind else {
            panic!("not parenthesized: {:?}", block[0]);
        };
        assert_eq!(inner.kind, ExpressionKind::Identifier("y"));
    });
}

#[test]
fn else_belongs_to_the_nearest_if() {
    with_unit("void f(void) { if (a) if (b) x(); else y(); }", |unit| {
        let block = body(unit[0]);
        assert_eq!(block.len(), 1);
        let UnlabeledStatementKind::Primary(_, primary) = &unlabeled(block[0]).kind else {
            panic!("not a block");
        };
        let PrimaryBlockKind::Selection(outer) = &primary.kind else {
            panic!("not a selection");
        };
        let SelectionStatementKind::If { then_body, else_body, .. } = &outer.kind else {
            panic!("not an if");
        };
        assert!(else_body.is_none());
        let Statement { kind: StatementKind::Unlabeled(inner), .. } = &*then_body.statement else {
            panic!("labeled");
        };
        let UnlabeledStatementKind::Primary(_, primary) = &inner.kind else {
            panic!("not a block");
        };
        let PrimaryBlockKind::Selection(inner) = &primary.kind else {
            panic!("not a selection");
        };
        let SelectionStatementKind::If { else_body, .. } = &inner.kind else {
            panic!("not an if");
        };
        assert!(else_body.is_some());
    });
}

#[test]
fn failure_leaves_one_diagnostic() {
    let tokens = vec![
        Token { at: At::new(0, 1, 1), kind: TokenKind::Plus },
        Token { at: At::new(1, 1, 1), kind: TokenKind::Eof },
    ];
    let (unit, errors) = Parser::new(&tokens).parse();
    assert_eq!(unit, Err(()));
    assert_eq!(errors, vec![ParseErr { at: tokens[0], expected: Expected::ExternalDeclaration }]);
}

#[test]
fn parsing_stops_in_front_of_what_begins_no_declaration() {
    assert_eq!(read("int x; int y; + int z;"), 2);
    let (tokens, _) = Lexer::new("int x; +").lex();
    let (unit, errors) = Parser::new(&tokens).parse();
    assert!(unit.is_ok());
    assert_eq!(errors, vec![]);
}

#[test]
fn enum_without_tag_and_body_is_read_with_a_diagnostic() {
    let (tokens, _) = Lexer::new("enum ;").lex();
    let (unit, errors) = Parser::new(&tokens).parse();
    assert!(unit.is_ok());
    assert_eq!(errors, vec![ParseErr { at: tokens[1], expected: Expected::Identifier }]);
}

#[test]
fn attribute_specifiers_are_not_read() {
    assert_eq!(read("[[nodiscard]] int f(void);"), 0);
    assert_eq!(read("int x; [[maybe_unused]] int y;"), 1);
}

#[test]
fn qualifiers_and_function_specifiers_are_read() {
    assert_eq!(read("const int x; static inline int f(void) { return 1; } volatile char *const p;"), 3);
}

#[test]
fn static_assertion_with_a_message() {
    assert_eq!(read("static_assert(1, \"one\"); static_assert(2);"), 2);
}

#[test]
fn declarators() {
    assert_eq!(read("int a[3], b[static 3], c[const static 3], d[const *], e[], (*f)(int, ...);"), 1);
    assert_eq!(read("void f(int a[static const 3], int (*)(void), int *[], ...);"), 1);
    assert_eq!(read("struct s { int a : 3; int : 0; unsigned b; } x = { .a = 1, [0] = 2, 3, };"), 1);
    assert_eq!(read("enum e : int { A, B = 2, } y; union u *z; _Atomic(int) w; typeof(1 + 2) v;"), 4);
}

#[test]
fn statements() {
    let src = "int f(int n) {
        int i = 0, j;
        l: for (int k = 0; k < n; k++) { if (k) continue; else break; }
        while (i) do i--; while (i > 0);
        switch (n) { case 0: i = 1; break; default: ; }
        goto l;
        return sizeof(int) + sizeof i + alignof(long) + (int)n + (n ? 1 : 2);
    }";
    assert_eq!(read(src), 1);
}

#[test]
fn expressions_group_from_the_left() {
    with_unit("void f(void) { a - b - c; }", |unit| {
        let block = body(unit[0]);
        let ExpressionKind::Binary { left, right, .. } = &expression(block[0]).kind else {
            panic!("not binary");
        };
        assert_eq!(right.kind, ExpressionKind::Identifier("c"));
        let ExpressionKind::Binary { left, right, .. } = &left.kind else {
            panic!("not binary");
        };
        assert_eq!(left.kind, ExpressionKind::Identifier("a"));
        assert_eq!(right.kind, ExpressionKind::Identifier("b"));
    });
}

#[test]
fn multiplication_binds_tighter_than_addition() {
    with_unit("void f(void) { a + b * c; }", |unit| {
        let block = body(unit[0]);
        let ExpressionKind::Binary { left, operator, right } = &expression(block[0]).kind else {
            panic!("not binary");
        };
        assert_eq!(operator.1, ecc::ast::BinaryOperator::Add);
        assert_eq!(left.kind, ExpressionKind::Identifier("a"));
        let ExpressionKind::Binary { operator, .. } = &right.kind else {
            panic!("not binary");
        };
        assert_eq!(operator.1, ecc::ast::BinaryOperator::Multiply);
    });
}

#[test]
fn assignment_groups_from_the_right() {
    with_unit("void f(void) { a = b &= c; }", |unit| {
        let block = body(unit[0]);
        let ExpressionKind::Assign { left, operator, right } = &expression(block[0]).kind else {
            panic!("not an assignment");
        };
        assert_eq!(left.kind, ExpressionKind::Identifier("a"));
        assert_eq!(operator.1, ecc::ast::AssignmentOperator::Assign);
        let ExpressionKind::Assign { operator, .. } = &right.kind else {
            panic!("not an assignment");
        };
        assert_eq!(operator.1, ecc::ast::AssignmentOperator::And);
    });
}

#[test]
fn nodes_start_where_their_first_token_stands() {
    with_unit("int   x\n =  1 + 2;", |unit| {
        assert_eq!(unit[0].at, At::new(0, 1, 1));
        let ExternalDeclarationKind::Declaration(declaration) = &unit[0].kind else {
            panic!("not a declaration");
        };
        let DeclarationKind::Normal { init_declarators: Some(list), semicolon, .. } =
            &declaration.kind
        else {
            panic!("no declarators");
        };
        assert_eq!(list.at, At::new(0, 1, 7));
        assert_eq!(*semicolon, At::new(0, 2, 10));
        let ecc::ast::CommaListKind::Leaf(declarator) = &list.kind else {
            panic!("more than one");
        };
        let (equal, initializer) = declarator.initializer.as_ref().expect("an initializer");
        assert_eq!(*equal, At::new(0, 2, 2));
        assert_eq!(initializer.at, At::new(0, 2, 5));
    });
}

#[test]
fn failed_attempt_leaves_no_trace() {
    let (tokens, _) = Lexer::new("typedef int T; x").lex();
    let mut parser = Parser::new(&tokens);
    parser.push_scope();
    parser.declare_typedef("U");
    assert_eq!(parser.take(TokenKind::Int), Err(()));
    let position = parser.position();
    let diagnostics = parser.diagnostics().clone();
    let depth = parser.depth();
    assert_eq!((position, diagnostics.len(), depth), (0, 1, 1));

    let outer = parser.begin();
    assert_eq!(parser.depth(), 2);
    assert!(parser.take(TokenKind::Typedef).is_ok());
    assert!(parser.take(TokenKind::Int).is_ok());
    let inner = parser.begin();
    let name = parser.take_identifier();
    assert_eq!(name, Ok("T"));
    parser.declare_typedef("T");
    assert_eq!(parser.settle(inner, name), Ok("T"));
    assert_eq!(parser.depth(), 2);
    assert!(parser.is_typedef_name("T"));
    let comma = parser.take(TokenKind::Comma);
    assert_eq!(comma, Err(()));
    assert_eq!(parser.position(), 3);
    assert_eq!(parser.diagnostics().len(), 2);
    assert_eq!(parser.diagnostics()[1], ParseErr {
        at: tokens[3],
        expected: Expected::Token(TokenKind::Comma),
    });

    assert_eq!(parser.settle(outer, comma), Err(()));
    assert_eq!(parser.position(), position);
    assert_eq!(*parser.diagnostics(), diagnostics);
    assert_eq!(parser.depth(), depth);
    assert!(!parser.is_typedef_name("T"));
    assert!(parser.is_typedef_name("U"));
}

#[test]
fn successful_attempt_keeps_its_typedef_names() {
    let (tokens, _) = Lexer::new("T x").lex();
    let mut parser = Parser::new(&tokens);
    parser.push_scope();
    let attempt = parser.begin();
    let name = parser.take_identifier();
    parser.declare_typedef("T");
    assert_eq!(parser.settle_optional(attempt, name), Some("T"));
    assert_eq!((parser.position(), parser.depth()), (1, 1));
    assert!(parser.is_typedef_name("T"));
    parser.pop_scope();
    assert_eq!(parser.depth(), 0);
    assert!(!parser.is_typedef_name("T"));
}

#[test]
fn typedef_name_is_known_behind_its_declarator_name() {
    assert_eq!(read("typedef int T[sizeof(T *)], U = sizeof(U *), V[sizeof(T *)];"), 1);
    assert_eq!(read("typedef int T[sizeof(U *)], U;"), 0);
    assert_eq!(read("int T[sizeof(T)];"), 1);
    assert_eq!(read("int T[sizeof(T *)];"), 0);
}

#[test]
fn identifier_is_taken_without_a_diagnostic_or_with_one() {
    let (tokens, _) = Lexer::new("x 1").lex();
    let mut parser = Parser::new(&tokens);
    assert_eq!((parser.position(), parser.depth(), parser.diagnostics().len()), (0, 0, 0));
    assert_eq!(parser.take_identifier(), Ok("x"));
    assert_eq!(parser.position(), 1);
    assert_eq!(parser.take_identifier(), Err(()));
    assert_eq!(parser.position(), 1);
    assert_eq!(*parser.diagnostics(), vec![ParseErr {
        at: tokens[1],
        expected: Expected::Identifier,
    }]);
}

/// The specifiers of a declaration, first to last.
fn specifiers<'t, 'a>(
    list: &'t ecc::ast::DeclarationSpecifiers<'a>,
) -> Vec<&'t ecc::ast::DeclarationSpecifier<'a>> {
    let mut all = vec![&list.specifier];
    let mut rest = &list.kind;
    while let ecc::ast::DeclarationSpecifiersKind::Cons(next) = rest {
        all.push(&next.specifier);
        rest = &next.kind;
    }
    all
}

/// The only declarator of the declaration that `external` is, with its
/// specifiers.
fn single_declaration<'t, 'a>(
    external: &'t ExternalDeclaration<'a>,
) -> (Vec<&'t ecc::ast::DeclarationSpecifier<'a>>, &'t ecc::ast::InitDeclarator<'a>) {
    let ExternalDeclarationKind::Declaration(declaration) = &external.kind else {
        panic!("not a declaration");
    };
    let DeclarationKind::Normal { attributes: None, specifiers: list, init_declarators, .. } =
        &declaration.kind
    else {
        panic!("not a plain declaration");
    };
    let ecc::ast::CommaListKind::Leaf(declarator) =
        &init_declarators.as_ref().expect("a declarator").kind
    else {
        panic!("more than one declarator");
    };
    (specifiers(list), declarator)
}

fn type_specifier_kind<'t, 'a>(
    specifier: &'t ecc::ast::DeclarationSpecifier<'a>,
) -> &'t TypeSpecifierKind<'a> {
    let DeclarationSpecifierKind::Type(specifier) = &specifier.kind else {
        panic!("not a type specifier or qualifier");
    };
    let TypeSpecifierQualifierKind::TypeSpecifier(specifier) = &specifier.kind else {
        panic!("not a type specifier");
    };
    &specifier.kind
}

fn initializer_expression<'t, 'a>(
    declarator: &'t ecc::ast::InitDeclarator<'a>,
) -> &'t Expression<'a> {
    let (_, initializer) = declarator.initializer.as_ref().expect("an initializer");
    let ecc::ast::InitializerKind::Expression(expression) = &initializer.kind else {
        panic!("a braced initializer");
    };
    expression
}

fn integer_source<'a>(expression: &Expression<'a>) -> &'a str {
    let ExpressionKind::Integer(integer) = &expression.kind else {
        panic!("not an integer: {expression:?}");
    };
    integer.source
}

#[test]
fn plain_declaration() {
    with_unit("int x;\n", |unit| {
        assert_eq!(unit.len(), 1);
        let (specifiers, declarator) = single_declaration(unit[0]);
        assert_eq!(specifiers.len(), 1);
        assert_eq!(*type_specifier_kind(specifiers[0]), TypeSpecifierKind::Int);
        assert!(declarator.declarator.pointer.is_none());
        assert_eq!(
            declarator.declarator.direct.kind,
            ecc::ast::DirectDeclaratorKind::Name("x", None)
        );
        assert!(declarator.initializer.is_none());
    });
}

#[test]
fn qualified_declaration() {
    with_unit("const int x;\n", |unit| {
        assert_eq!(unit.len(), 1);
        let (specifiers, declarator) = single_declaration(unit[0]);
        assert_eq!(specifiers.len(), 2);
        let DeclarationSpecifierKind::Type(first) = &specifiers[0].kind else {
            panic!("not a qualifier");
        };
        let TypeSpecifierQualifierKind::TypeQualifier(qualifier) = &first.kind else {
            panic!("not a qualifier");
        };
        assert_eq!(qualifier.kind, ecc::ast::TypeQualifierKind::Const);
        assert_eq!(*type_specifier_kind(specifiers[1]), TypeSpecifierKind::Int);
        assert_eq!(
            declarator.declarator.direct.kind,
            ecc::ast::DirectDeclaratorKind::Name("x", None)
        );
    });
}

#[test]
fn initializer_with_the_tighter_operator_deeper() {
    with_unit("int x = 1 + 2 * 3;\n", |unit| {
        let (_, declarator) = single_declaration(unit[0]);
        let ExpressionKind::Binary { left, operator, right } =
            &initializer_expression(declarator).kind
        else {
            panic!("not binary");
        };
        assert_eq!(operator.1, ecc::ast::BinaryOperator::Add);
        assert_eq!(integer_source(left), "1");
        let ExpressionKind::Binary { left, operator, right } = &right.kind else {
            panic!("not binary");
        };
        assert_eq!(operator.1, ecc::ast::BinaryOperator::Multiply);
        assert_eq!(integer_source(left), "2");
        assert_eq!(integer_source(right), "3");
    });
}

#[test]
fn initializer_grouped_from_the_left() {
    with_unit("int x = 1 - 2 - 3;\n", |unit| {
        let (_, declarator) = single_declaration(unit[0]);
        let outer = initializer_expression(declarator);
        assert_eq!(outer.at, At::new(0, 1, 9));
        let ExpressionKind::Binary { left, operator, right } = &outer.kind else {
            panic!("not binary");
        };
        assert_eq!(operator.1, ecc::ast::BinaryOperator::Subtract);
        assert_eq!(integer_source(right), "3");
        let ExpressionKind::Binary { left, operator, right } = &left.kind else {
            panic!("not binary");
        };
        assert_eq!(operator.1, ecc::ast::BinaryOperator::Subtract);
        assert_eq!(integer_source(left), "1");
        assert_eq!(integer_source(right), "2");
    });
}

#[test]
fn size_of_a_type() {
    with_unit("int x = sizeof(int);", |unit| {
        let (_, declarator) = single_declaration(unit[0]);
        let ExpressionKind::Sizeof { kind, .. } = &initializer_expression(declarator).kind else {
            panic!("not sizeof");
        };
        let ecc::ast::SizeofKind::Type { typename, .. } = kind else {
            panic!("the size of an expression");
        };
        let TypeSpecifierQualifierKind::TypeSpecifier(specifier) =
            &typename.specifier_qualifiers.specifier_qualifier.kind
        else {
            panic!("not a type specifier");
        };
        assert_eq!(specifier.kind, TypeSpecifierKind::Int);
        assert!(typename.declarator.is_none());
    });
}

#[test]
fn postfix_forms_in_their_order() {
    with_unit("void f(void) { a.b[c]()++; }", |unit| {
        let block = body(unit[0]);
        let ExpressionKind::PostIncrement { left, .. } = &expression(block[0]).kind else {
            panic!("not ++");
        };
        let ExpressionKind::Call { left, arguments: None, .. } = &left.kind else {
            panic!("not a call");
        };
        let ExpressionKind::Index { left, index, .. } = &left.kind else {
            panic!("not a subscript");
        };
        assert_eq!(index.kind, ExpressionKind::Identifier("c"));
        let ExpressionKind::Member { left, name, .. } = &left.kind else {
            panic!("not a member");
        };
        assert_eq!(*name, "b");
        assert_eq!(left.kind, ExpressionKind::Identifier("a"));
    });
}

#[test]
fn forms_of_array_brackets() {
    with_unit("void f(int a[static 3], int b[const static 3], int c[const *], int d[]);", |unit| {
        let (_, declarator) = single_declaration(unit[0]);
        let ecc::ast::DirectDeclaratorKind::Function(function, _) =
            &declarator.declarator.direct.kind
        else {
            panic!("not a function declarator");
        };
        let (parameters, _) = function
            .parameters
            .as_ref()
            .expect("a parameter list")
            .parameters
            .as_ref()
            .expect("parameters");
        let mut kinds = Vec::new();
        let mut list = parameters;
        loop {
            let (item, rest) = match &list.kind {
                ecc::ast::CommaListKind::Leaf(item) => (item, None),
                ecc::ast::CommaListKind::Cons { left, right, .. } => (right, Some(left)),
            };
            let ecc::ast::ParameterDeclarationKind::Concrete(declarator) = &item.kind else {
                panic!("no declarator");
            };
            let ecc::ast::DirectDeclaratorKind::Array(array, _) = &declarator.direct.kind else {
                panic!("no array");
            };
            kinds.push(match &array.kind {
                ecc::ast::ArrayDeclaratorKind::Normal { static_keyword, size } => (
                    array.qualifiers.is_some(),
                    static_keyword.is_some(),
                    size.is_some(),
                    false,
                ),
                ecc::ast::ArrayDeclaratorKind::Var { .. } => {
                    (array.qualifiers.is_some(), false, false, true)
                }
            });
            match rest {
                Some(rest) => list = rest,
                None => break,
            }
        }
        kinds.reverse();
        assert_eq!(kinds, vec![
            (false, true, true, false),
            (true, true, true, false),
            (true, false, false, true),
            (false, false, false, false),
        ]);
    });
}

#[test]
fn block_with_the_places_of_its_braces() {
    with_unit("void f(void)\n{\n  ;\n}", |unit| {
        let ExternalDeclarationKind::Function(function) = &unit[0].kind else {
            panic!("not a function");
        };
        assert_eq!(function.body.open_brace, At::new(0, 2, 1));
        assert_eq!(function.body.close_brace, At::new(0, 4, 1));
        assert_eq!(body(unit[0]).len(), 1);
    });
}

#[test]
fn trailing_comma_is_left_to_the_rule_around_the_list() {
    with_unit("enum e { A, B, C, };", |unit| {
        let (specifiers, _) = {
            let ExternalDeclarationKind::Declaration(declaration) = &unit[0].kind else {
                panic!("not a declaration");
            };
            let DeclarationKind::Normal { specifiers: list, init_declarators: None, .. } =
                &declaration.kind
            else {
                panic!("declarators");
            };
            (specifiers(list), ())
        };
        let TypeSpecifierKind::Enum(specifier) = type_specifier_kind(specifiers[0]) else {
            panic!("not an enum");
        };
        let (_, enumerators, final_comma, _) =
            specifier.enumerators.as_ref().expect("enumerators");
        assert!(final_comma.is_some());
        let ecc::ast::CommaListKind::Cons { left, right, .. } = &enumerators.kind else {
            panic!("one enumerator");
        };
        assert_eq!(right.name, "C");
        let ecc::ast::CommaListKind::Cons { left, right, .. } = &left.kind else {
            panic!("two enumerators");
        };
        assert_eq!(right.name, "B");
        let ecc::ast::CommaListKind::Leaf(first) = &left.kind else {
            panic!("four enumerators");
        };
        assert_eq!(first.name, "A");
    });
}

#[test]
fn loop_leaves_the_typedef_scopes_as_they_were() {
    assert_eq!(read("void f(void) { for (typedef int T;;) { T x; } int T; T = 1; }"), 1);
}
