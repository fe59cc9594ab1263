//! A plain syntax tree for JSON-RPC method declarations.
//!
//! The extractor does not read declaration text itself: the build script
//! parses the source and hands over this tree, which holds exactly what the
//! extractor inspects — attributes, parameter patterns, and the shape of each
//! declared type. Every type expression also carries its token rendering
//! (identifiers and path separators joined by single spaces, angle-bracketed
//! arguments spelled `< .. >`), which is what the generated code embeds.

use vstd::prelude::*;

verus! {

/// An attribute on a method declaration, reduced to the kinds the extractor
/// reads.
pub enum Attribute {
    /// One documentation line, as written (with its leading space, if any).
    Doc(String),
    /// The command annotation carrying the method's command name.
    Command(String),
    /// A deprecation marker.
    Deprecated,
    /// Any other attribute.
    Other,
}

/// A generic argument inside angle brackets.
pub enum TypeArg {
    /// A type argument, carried as its token rendering.
    TypeValue(String),
    /// A lifetime, const, or other non-type argument.
    OtherArg,
}

/// The arguments of one path segment.
pub enum SegArgs {
    /// No arguments at all.
    Bare,
    /// Angle-bracketed arguments.
    Angled(Vec<TypeArg>),
    /// Parenthesized or otherwise unsupported arguments.
    Unsupported,
}

/// One segment of a type path.
pub struct PathSeg {
    /// The segment's identifier.
    pub ident: String,
    /// The segment's generic arguments.
    pub args: SegArgs,
}

/// A path type, such as `Option<u32>` or `age::secrecy::SecretString`.
pub struct TypePath {
    /// Whether the path starts with a leading `::`.
    pub leading_colon: bool,
    /// The path's segments, in order.
    pub segments: Vec<PathSeg>,
}

/// A declared type expression.
pub enum TypeExpr {
    /// A path type, together with its token rendering.
    Path { path: TypePath, rendered: String },
    /// Any non-path type, carried only as its token rendering.
    Other { rendered: String },
}

/// The pattern binding a formal parameter.
pub enum Pattern {
    /// A simple identifier pattern, carrying the parameter name.
    IdentPat(String),
    /// Any other pattern; such parameters are skipped.
    OtherPat,
}

/// One formal parameter of a method declaration.
pub enum FnArg {
    /// The method receiver (`self` in some form).
    Receiver,
    /// A typed parameter.
    Typed { pat: Pattern, ty: TypeExpr },
}

/// The declared return type of a method.
pub enum ReturnType {
    /// No explicit return type.
    DefaultReturn,
    /// An explicit return type.
    Typed(TypeExpr),
}

/// One method declaration inside a declaration group.
pub struct MethodDecl {
    /// The method's attributes, in order.
    pub attrs: Vec<Attribute>,
    /// The method's formal parameters, in order.
    pub inputs: Vec<FnArg>,
    /// The method's declared return type.
    pub output: ReturnType,
}

/// A declaration group: a trait holding related method declarations.
pub struct TraitDecl {
    /// The trait's name.
    pub ident: String,
    /// The trait's method declarations, in order.
    pub methods: Vec<MethodDecl>,
}

/// A whole declaration source: the trait declarations it holds, in order.
pub struct SourceFile {
    /// The declaration groups, in order of appearance.
    pub traits: Vec<TraitDecl>,
}

} // verus!
