use vstd::prelude::*;

verus! {

/// Binary operators, from the loosest binding to the tightest:
/// `&&`, `<`, `+` and `-`, `*`.
#[derive(Debug, Clone, Copy, PartialEq, Eq)]
pub enum BinaryOp {
    And,
    Less,
    Add,
    Sub,
    Mul,
}

/// The types a variable, field, parameter or method result can have.
#[derive(Debug, Clone, PartialEq, Eq)]
pub enum Type {
    IntegerArray,
    Boolean,
    Integer,
    ClassRef(String),
}

#[derive(Debug, PartialEq, Eq)]
pub enum Expression {
    BinaryExpression(BinaryOp, Box<Expression>, Box<Expression>),
    ArrayIndexExpression(Box<Expression>, Box<Expression>),
    ArrayLengthExpression(Box<Expression>),
    FuncCallExpression(Box<Expression>, String, Vec<Expression>),
    ConstantInteger(i64),
    ConstantBoolean(bool),
    Identifier(String),
    ThisExpression,
    NewArrayExpression(Box<Expression>),
    NewExpression(String),
    NotExpression(Box<Expression>),
}

#[derive(Debug, PartialEq, Eq)]
pub enum Statement {
    StatementList(Vec<Statement>),
    IfStatement(Box<Expression>, Box<Statement>, Box<Statement>),
    WhileStatement(Box<Expression>, Box<Statement>),
    PrintlnStatement(Box<Expression>),
    AssignStatement(String, Box<Expression>),
    ArrayAssignStatement(String, Box<Expression>, Box<Expression>),
}

/// A typed name: a field, a local variable or a parameter.
#[derive(Debug, Clone, PartialEq, Eq)]
pub struct VarDecl {
    pub ty: Type,
    pub name: String,
}

#[derive(Debug, PartialEq, Eq)]
pub struct MethodDecl {
    pub name: String,
    pub params: Vec<VarDecl>,
    pub return_type: Type,
    pub locals: Vec<VarDecl>,
    pub body: Statement,
    pub result: Expression,
}

#[derive(Debug, PartialEq, Eq)]
pub struct ClassDecl {
    pub name: String,
    pub superclass: Option<String>,
    pub fields: Vec<VarDecl>,
    pub methods: Vec<MethodDecl>,
}

/// The entry class: its name, the name of `main`'s argument, and `main`'s body.
#[derive(Debug, PartialEq, Eq)]
pub struct MainClass {
    pub name: String,
    pub arg_name: String,
    pub state: Statement,
}

#[derive(Debug, PartialEq, Eq)]
pub enum ASTNode {
    MainClassNode(MainClass),
}

/// A whole program: the entry class followed by the other classes.
#[derive(Debug, PartialEq, Eq)]
pub struct Program {
    pub main: ASTNode,
    pub classes: Vec<ClassDecl>,
}

} // verus!
