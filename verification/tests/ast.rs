use toyparse::ast::{
    Add, Assign, Ast, Block, Call, Divide, Equal, Function, Id, If, Multiply, Not, NotEqual,
    Number, Return, Subtract, Var, While,
};

fn number(value: i64) -> Ast {
    Ast::Number(Number { value })
}

fn id(value: &str) -> Ast {
    Ast::Id(Id { value: String::from(value) })
}

#[test]
fn ast_structural_equality() {
    // Two independently constructed trees with the same shape and leaves
    // compare equal.
    let first = Ast::Add(Add { left: Box::new(number(2)), right: Box::new(number(3)) });
    let second = Ast::Add(Add { left: Box::new(number(2)), right: Box::new(number(3)) });
    assert_eq!(first, second);

    // Differing a leaf value breaks equality.
    let other_leaf = Ast::Add(Add { left: Box::new(number(2)), right: Box::new(number(4)) });
    assert_ne!(first, other_leaf);

    // Differing a variant breaks equality even with the same leaves.
    let other_variant =
        Ast::Subtract(Subtract { left: Box::new(number(2)), right: Box::new(number(3)) });
    assert_ne!(first, other_variant);
}

#[test]
fn ast_equality_is_recursive() {
    let make = || {
        Ast::If(If {
            conditional: Box::new(Ast::NotEqual(NotEqual {
                left: Box::new(id("x")),
                right: Box::new(number(0)),
            })),
            consequence: Box::new(Ast::Block(Block {
                statements: vec![
                    Ast::Assign(Assign { name: String::from("x"), value: Box::new(number(1)) }),
                    Ast::Return(Return { term: Box::new(id("x")) }),
                ],
            })),
            alternative: Box::new(Ast::Block(Block { statements: vec![] })),
        })
    };
    assert_eq!(make(), make());

    let deep_change = Ast::If(If {
        conditional: Box::new(Ast::NotEqual(NotEqual {
            left: Box::new(id("y")),
            right: Box::new(number(0)),
        })),
        consequence: Box::new(Ast::Block(Block {
            statements: vec![
                Ast::Assign(Assign { name: String::from("x"), value: Box::new(number(1)) }),
                Ast::Return(Return { term: Box::new(id("x")) }),
            ],
        })),
        alternative: Box::new(Ast::Block(Block { statements: vec![] })),
    });
    assert_ne!(make(), deep_change);
}

#[test]
fn ast_all_variants_construct() {
    let factorial = Ast::Function(Function {
        name: String::from("factorial"),
        parameters: vec![id("n")],
        body: Box::new(Ast::Block(Block {
            statements: vec![
                Ast::Var(Var { name: String::from("result"), value: Box::new(number(1)) }),
                Ast::While(While {
                    conditional: Box::new(Ast::Not(Not {
                        term: Box::new(Ast::Equal(Equal {
                            left: Box::new(id("n")),
                            right: Box::new(number(0)),
                        })),
                    })),
                    body: Box::new(Ast::Block(Block {
                        statements: vec![
                            Ast::Assign(Assign {
                                name: String::from("result"),
                                value: Box::new(Ast::Multiply(Multiply {
                                    left: Box::new(id("result")),
                                    right: Box::new(id("n")),
                                })),
                            }),
                            Ast::Assign(Assign {
                                name: String::from("n"),
                                value: Box::new(Ast::Subtract(Subtract {
                                    left: Box::new(id("n")),
                                    right: Box::new(number(1)),
                                })),
                            }),
                        ],
                    })),
                }),
                Ast::Return(Return {
                    term: Box::new(Ast::Divide(Divide {
                        left: Box::new(id("result")),
                        right: Box::new(number(1)),
                    })),
                }),
            ],
        })),
    });
    let call = Ast::Call(Call { callee: String::from("factorial"), args: vec![number(5)] });

    if let Ast::Function(f) = &factorial {
        assert_eq!(f.name, "factorial");
        assert_eq!(f.parameters.len(), 1);
    } else {
        panic!("expected a function node");
    }
    assert_ne!(factorial, call);
}

#[test]
fn ast_order_is_total_and_structural() {
    // Variant tag order first ...
    assert!(Ast::Add(Add { left: Box::new(number(1)), right: Box::new(number(1)) })
        < Ast::Subtract(Subtract { left: Box::new(number(1)), right: Box::new(number(1)) }));
    // ... then field order.
    assert!(number(1) < number(2));
    assert!(id("a") < id("b"));

    let mut nodes = vec![number(3), id("a"), number(1)];
    nodes.sort();
    assert_eq!(nodes, vec![id("a"), number(1), number(3)]);
}
