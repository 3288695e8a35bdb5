//! The abstract syntax tree and its mathematical model.

use vstd::prelude::*;
use crate::token::{Token, TokenView};

verus! {

/// A binary arithmetic operator.
#[derive(Debug, PartialEq, Eq, Clone, Copy, Structural)]
pub enum OperatorToken {
    Add,
    Subtract,
    Multiply,
    Divide,
    Modulo,
}

/// The operator that a token denotes, if it denotes one.
pub open spec fn operator_of(token: TokenView) -> Option<OperatorToken> {
    match token {
        TokenView::Add => Some(OperatorToken::Add),
        TokenView::Subtract => Some(OperatorToken::Subtract),
        TokenView::Multiply => Some(OperatorToken::Multiply),
        TokenView::Divide => Some(OperatorToken::Divide),
        TokenView::Modulo => Some(OperatorToken::Modulo),
        _ => None,
    }
}

impl OperatorToken {
    /// The operator that an operator token denotes.
    pub fn from(token: Token) -> (operator: OperatorToken)
        requires
            operator_of(token@) is Some,
        ensures
            operator_of(token@) == Some(operator),
    {
        match token {
            Token::Add => OperatorToken::Add,
            Token::Subtract => OperatorToken::Subtract,
            Token::Multiply => OperatorToken::Multiply,
            Token::Divide => OperatorToken::Divide,
            _ => OperatorToken::Modulo,
        }
    }
}

/// Which test a conditional makes on the value of its expression.
#[derive(Debug, PartialEq, Eq, Clone, Copy, Structural)]
pub enum Condition {
    Positive,
    Zero,
    Negative,
}

/// A node of the syntax tree. Each node owns its children.
#[derive(Debug, PartialEq)]
pub enum ASTNode {
    /// The whole program: the statements between the outermost `BEGIN` and `END`.
    Program(Vec<ASTNode>),
    /// An assignment of an expression to a variable.
    Assignment(String, Box<ASTNode>),
    /// A binary operation.
    BinaryOperation { left: Box<ASTNode>, operator: OperatorToken, right: Box<ASTNode> },
    /// A variable.
    Variable(String),
    /// A number.
    Number(i32),
    /// A conditional: a test, the statements run when it holds, and those
    /// after `ELSE`, if there is one.
    Conditional {
        condition: Condition,
        test: Box<ASTNode>,
        positive: Vec<ASTNode>,
        negative: Option<Vec<ASTNode>>,
    },
    /// A loop, left only by `BREAK`.
    Loop(Vec<ASTNode>),
    /// Leaves the enclosing loop.
    Break,
    /// Prints the value of an expression.
    Print(Box<ASTNode>),
    /// Reads a value into a variable.
    Read(String),
}

/// The model of an [`ASTNode`].
pub ghost enum Ast {
    Program(Seq<Ast>),
    Assignment(Seq<char>, Box<Ast>),
    BinaryOperation { left: Box<Ast>, operator: OperatorToken, right: Box<Ast> },
    Variable(Seq<char>),
    Number(i32),
    Conditional { condition: Condition, test: Box<Ast>, positive: Seq<Ast>, negative: Option<Seq<Ast>> },
    Loop(Seq<Ast>),
    Break,
    Print(Box<Ast>),
    Read(Seq<char>),
}

/// The model of a node.
pub open spec fn node_view(node: ASTNode) -> Ast
    decreases node,
{
    match node {
        ASTNode::Program(body) => Ast::Program(nodes_view(body@)),
        ASTNode::Assignment(name, value) => Ast::Assignment(name@, Box::new(node_view(*value))),
        ASTNode::BinaryOperation { left, operator, right } => Ast::BinaryOperation {
            left: Box::new(node_view(*left)),
            operator,
            right: Box::new(node_view(*right)),
        },
        ASTNode::Variable(name) => Ast::Variable(name@),
        ASTNode::Number(n) => Ast::Number(n),
        ASTNode::Conditional { condition, test, positive, negative } => Ast::Conditional {
            condition,
            test: Box::new(node_view(*test)),
            positive: nodes_view(positive@),
            negative: match negative {
                Some(body) => Some(nodes_view(body@)),
                None => None,
            },
        },
        ASTNode::Loop(body) => Ast::Loop(nodes_view(body@)),
        ASTNode::Break => Ast::Break,
        ASTNode::Print(value) => Ast::Print(Box::new(node_view(*value))),
        ASTNode::Read(name) => Ast::Read(name@),
    }
}

/// The models of a list of nodes, in order.
pub open spec fn nodes_view(nodes: Seq<ASTNode>) -> Seq<Ast>
    decreases nodes,
{
    Seq::new(nodes.len(), |i: int| if 0 <= i < nodes.len() { node_view(nodes[i]) } else { Ast::Break })
}

impl View for ASTNode {
    type V = Ast;

    open spec fn view(&self) -> Ast {
        node_view(*self)
    }
}

} // verus!
