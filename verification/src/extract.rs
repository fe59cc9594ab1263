//! The declaration extractor: from a declaration source to the static lookup
//! table mapping each command name to its method metadata.
//!
//! [`generate_methods_table`] walks the requested declaration groups of a
//! [`SourceFile`], derives per command-annotated method its description,
//! parameter list with inferred optionality, result accessor and deprecation
//! flag, and renders one static table literal ready to be compiled into the
//! serving process.

use vstd::prelude::*;
use vstd::string::StrSliceExecFns;
use vstd::string::StringExecFns;

use crate::ast::Attribute;
use crate::ast::FnArg;
use crate::ast::MethodDecl;
use crate::ast::Pattern;
use crate::ast::ReturnType;
use crate::ast::SegArgs;
use crate::ast::SourceFile;
use crate::ast::TraitDecl;
use crate::ast::TypeArg;
use crate::ast::TypeExpr;

verus! {

/// What `str::to_uppercase` returns: the uppercase form of a string. The
/// mapping depends on the characters alone.
pub uninterp spec fn upper_of(s: Seq<char>) -> Seq<char>;

/// Relies on `str::to_uppercase`: the result depends on the characters alone.
#[verifier::external_body]
fn to_upper(s: &str) -> (r: String)
    ensures
        r@ == upper_of(s@),
{
    s.to_uppercase()
}

/// Relies on `String::from_iter` for `char`: collecting characters yields a
/// string holding exactly those characters, in order.
#[verifier::external_body]
fn chars_to_string(v: Vec<char>) -> (r: String)
    ensures
        r@ == v@,
{
    v.into_iter().collect()
}

/// `s` with a single leading space removed, if one is present.
pub open spec fn strip_leading_space(s: Seq<char>) -> Seq<char> {
    if s.len() > 0 && s[0] == ' ' {
        s.drop_first()
    } else {
        s
    }
}

/// The lowercase hexadecimal digit of a value below sixteen.
pub open spec fn hex_digit(d: int) -> char {
    if d == 0 {
        '0'
    } else if d == 1 {
        '1'
    } else if d == 2 {
        '2'
    } else if d == 3 {
        '3'
    } else if d == 4 {
        '4'
    } else if d == 5 {
        '5'
    } else if d == 6 {
        '6'
    } else if d == 7 {
        '7'
    } else if d == 8 {
        '8'
    } else if d == 9 {
        '9'
    } else if d == 10 {
        'a'
    } else if d == 11 {
        'b'
    } else if d == 12 {
        'c'
    } else if d == 13 {
        'd'
    } else if d == 14 {
        'e'
    } else {
        'f'
    }
}

/// The lowercase hexadecimal rendering of `n`, most significant digit first,
/// without leading zeros.
pub open spec fn hex_of(n: nat) -> Seq<char>
    decreases n,
{
    if n < 16 {
        seq![hex_digit(n as int)]
    } else {
        hex_of(n / 16) + seq![hex_digit((n % 16) as int)]
    }
}

/// The escaping of one character for embedding in a generated string literal,
/// as `char::escape_default` renders it: tabs, carriage returns, newlines,
/// backslashes and both quote kinds get a backslash escape; printable ASCII
/// stands for itself; every other character becomes a `\u{..}` escape of its
/// code point.
pub open spec fn escape_char(c: char) -> Seq<char> {
    if c == '\t' {
        seq!['\\', 't']
    } else if c == '\r' {
        seq!['\\', 'r']
    } else if c == '\n' {
        seq!['\\', 'n']
    } else if c == '\\' {
        seq!['\\', '\\']
    } else if c == '\'' {
        seq!['\\', '\'']
    } else if c == '"' {
        seq!['\\', '"']
    } else if 0x20 <= c as u32 && c as u32 <= 0x7e {
        seq![c]
    } else {
        seq!['\\', 'u', '{'] + hex_of(c as u32 as nat) + seq!['}']
    }
}

/// `s` escaped character by character.
pub open spec fn escape_text(s: Seq<char>) -> Seq<char>
    decreases s.len(),
{
    if s.len() == 0 {
        Seq::empty()
    } else {
        escape_char(s[0]) + escape_text(s.drop_first())
    }
}

/// The description text of a method: each documentation line with its single
/// leading space stripped and escaped, followed by an explicit `\n` marker.
pub open spec fn description_of(attrs: Seq<Attribute>) -> Seq<char>
    decreases attrs.len(),
{
    if attrs.len() == 0 {
        Seq::empty()
    } else {
        let rest = description_of(attrs.drop_first());
        match attrs[0] {
            Attribute::Doc(line) => escape_text(strip_leading_space(line@)) + seq!['\\', 'n']
                + rest,
            _ => rest,
        }
    }
}

/// The command name of a method: the value of its first command annotation.
pub open spec fn command_of(attrs: Seq<Attribute>) -> Option<Seq<char>>
    decreases attrs.len(),
{
    if attrs.len() == 0 {
        None
    } else {
        match attrs[0] {
            Attribute::Command(name) => Some(name@),
            _ => command_of(attrs.drop_first()),
        }
    }
}

/// Whether a deprecation marker is present.
pub open spec fn deprecated_of(attrs: Seq<Attribute>) -> bool
    decreases attrs.len(),
{
    if attrs.len() == 0 {
        false
    } else {
        attrs[0] is Deprecated || deprecated_of(attrs.drop_first())
    }
}

/// The leading path segment of the declared return type, used to resolve
/// helper constants; `None` when the return type is not a path.
pub open spec fn module_of(output: ReturnType) -> Option<Seq<char>> {
    match output {
        ReturnType::Typed(ty) => match ty {
            TypeExpr::Path { path, .. } => if path.segments.len() > 0 {
                Some(path.segments[0].ident@)
            } else {
                None
            },
            _ => None,
        },
        _ => None,
    }
}

/// Appends the characters of `s`, from position `i` on, to `out`.
fn push_str_chars_from(s: &str, i: usize, out: &mut Vec<char>)
    requires
        i <= s@.len(),
    ensures
        final(out)@ == old(out)@ + s@.skip(i as int),
    decreases s@.len() - i,
{
    let n = s.unicode_len();
    if i < n {
        out.push(s.get_char(i));
        push_str_chars_from(s, i + 1, out);
        proof {
            assert(final(out)@ =~= old(out)@ + s@.skip(i as int));
        }
    } else {
        proof {
            assert(s@.skip(i as int) =~= Seq::<char>::empty());
        }
    }
}

/// Appends the characters of `s` to `out`.
fn push_str_chars(s: &str, out: &mut Vec<char>)
    ensures
        final(out)@ == old(out)@ + s@,
{
    push_str_chars_from(s, 0, out);
    proof {
        assert(s@.skip(0) =~= s@);
    }
}

/// The lowercase hexadecimal digit of a value below sixteen.
fn hex_digit_char(d: u32) -> (c: char)
    requires
        d < 16,
    ensures
        c == hex_digit(d as int),
{
    if d == 0 {
        '0'
    } else if d == 1 {
        '1'
    } else if d == 2 {
        '2'
    } else if d == 3 {
        '3'
    } else if d == 4 {
        '4'
    } else if d == 5 {
        '5'
    } else if d == 6 {
        '6'
    } else if d == 7 {
        '7'
    } else if d == 8 {
        '8'
    } else if d == 9 {
        '9'
    } else if d == 10 {
        'a'
    } else if d == 11 {
        'b'
    } else if d == 12 {
        'c'
    } else if d == 13 {
        'd'
    } else if d == 14 {
        'e'
    } else {
        'f'
    }
}

/// Appends the hexadecimal rendering of `n` to `out`.
fn push_hex(n: u32, out: &mut Vec<char>)
    ensures
        final(out)@ == old(out)@ + hex_of(n as nat),
    decreases n,
{
    if n < 16 {
        out.push(hex_digit_char(n));
        proof {
            assert(out@ =~= old(out)@ + hex_of(n as nat));
        }
    } else {
        push_hex(n / 16, out);
        out.push(hex_digit_char(n % 16));
        proof {
            assert(out@ =~= old(out)@ + hex_of(n as nat));
        }
    }
}

/// Appends the escaped form of `s`, from position `i` on, to `out`.
fn push_escaped_from(s: &str, i: usize, out: &mut Vec<char>)
    requires
        i <= s@.len(),
    ensures
        final(out)@ == old(out)@ + escape_text(s@.skip(i as int)),
    decreases s@.len() - i,
{
    let n = s.unicode_len();
    if i < n {
        let c = s.get_char(i);
        if c == '\t' {
            out.push('\\');
            out.push('t');
        } else if c == '\r' {
            out.push('\\');
            out.push('r');
        } else if c == '\n' {
            out.push('\\');
            out.push('n');
        } else if c == '\\' {
            out.push('\\');
            out.push('\\');
        } else if c == '\'' {
            out.push('\\');
            out.push('\'');
        } else if c == '"' {
            out.push('\\');
            out.push('"');
        } else {
            let code = c as u32;
            if 0x20 <= code && code <= 0x7e {
                out.push(c);
            } else {
                out.push('\\');
                out.push('u');
                out.push('{');
                push_hex(code, out);
                out.push('}');
            }
        }
        proof {
            assert(out@ =~= old(out)@ + escape_char(s@[i as int]));
        }
        push_escaped_from(s, i + 1, out);
        proof {
            assert(s@.skip(i as int).drop_first() =~= s@.skip(i as int + 1));
            assert(final(out)@ =~= old(out)@ + escape_text(s@.skip(i as int)));
        }
    } else {
        proof {
            assert(s@.skip(i as int) =~= Seq::<char>::empty());
        }
    }
}

/// Appends the description text of `attrs`, from position `i` on, to `out`.
fn push_description_from(attrs: &Vec<Attribute>, i: usize, out: &mut Vec<char>)
    requires
        i <= attrs.len(),
    ensures
        final(out)@ == old(out)@ + description_of(attrs@.skip(i as int)),
    decreases attrs.len() - i,
{
    if i < attrs.len() {
        proof {
            assert(attrs@.skip(i as int)[0] == attrs@[i as int]);
            assert(attrs@.skip(i as int).drop_first() =~= attrs@.skip(i as int + 1));
        }
        match &attrs[i] {
            Attribute::Doc(line) => {
                let n = line.as_str().unicode_len();
                let start: usize = if n > 0 && line.as_str().get_char(0) == ' ' {
                    1
                } else {
                    0
                };
                proof {
                    assert(strip_leading_space(line@) =~= line@.skip(start as int));
                }
                push_escaped_from(line.as_str(), start, out);
                out.push('\\');
                out.push('n');
                push_description_from(attrs, i + 1, out);
                proof {
                    assert(final(out)@ =~= old(out)@ + description_of(attrs@.skip(i as int)));
                }
            },
            _ => {
                push_description_from(attrs, i + 1, out);
            },
        }
    } else {
        proof {
            assert(attrs@.skip(i as int) =~= Seq::<Attribute>::empty());
        }
    }
}

/// One extracted parameter: its name, its schema type's token rendering, and
/// its inferred optionality (`None` when it must be resolved by a helper
/// constant).
#[derive(Debug)]
pub struct ParamEntry {
    /// The parameter's name.
    pub name: String,
    /// The token rendering of the parameter's schema type, after substitution.
    pub schema_ty: String,
    /// `Some(required)` when optionality was inferred from the declared type;
    /// `None` for a bare sequence type, whose requiredness a helper constant
    /// resolves.
    pub required: Option<bool>,
}

/// The mathematical value of a [`ParamEntry`].
pub struct ParamEntryV {
    /// The parameter's name.
    pub name: Seq<char>,
    /// The token rendering of the parameter's schema type.
    pub schema_ty: Seq<char>,
    /// The inferred optionality.
    pub required: Option<bool>,
}

impl View for ParamEntry {
    type V = ParamEntryV;

    open spec fn view(&self) -> ParamEntryV {
        ParamEntryV { name: self.name@, schema_ty: self.schema_ty@, required: self.required }
    }
}

/// The metadata extracted for one command-annotated method.
#[derive(Debug)]
pub struct MethodEntry {
    /// The method's command name: the table's key.
    pub command: String,
    /// The escaped description text, with its newline markers.
    pub description: String,
    /// The leading path segment of the declared return type.
    pub module: String,
    /// The method's extracted parameters, in declaration order.
    pub params: Vec<ParamEntry>,
    /// Whether a deprecation marker is present.
    pub deprecated: bool,
}

/// The mathematical value of a [`MethodEntry`].
pub struct MethodEntryV {
    /// The method's command name.
    pub command: Seq<char>,
    /// The escaped description text.
    pub description: Seq<char>,
    /// The leading path segment of the declared return type.
    pub module: Seq<char>,
    /// The extracted parameters, in declaration order.
    pub params: Seq<ParamEntryV>,
    /// Whether the method is deprecated.
    pub deprecated: bool,
}

/// The values of a sequence of parameter entries.
pub open spec fn params_view(params: Seq<ParamEntry>) -> Seq<ParamEntryV> {
    params.map_values(|p: ParamEntry| p@)
}

impl View for MethodEntry {
    type V = MethodEntryV;

    open spec fn view(&self) -> MethodEntryV {
        MethodEntryV {
            command: self.command@,
            description: self.description@,
            module: self.module@,
            params: params_view(self.params@),
            deprecated: self.deprecated,
        }
    }
}

/// The values of a sequence of method entries.
pub open spec fn entries_view(entries: Seq<MethodEntry>) -> Seq<MethodEntryV> {
    entries.map_values(|e: MethodEntry| e@)
}

/// A fatal extraction failure.
#[derive(Debug)]
pub enum ExtractError {
    /// A requested declaration group is absent from the source; carries the
    /// missing name.
    MissingTrait(String),
    /// A command-annotated method's return type is not a path from which a
    /// module could be resolved; carries the command name.
    MissingReturnPath(String),
    /// A parameter's optional-wrapper type carries no argument to unwrap;
    /// carries the parameter name.
    MissingOptionalArgument(String),
    /// A parameter's optional-wrapper type does not wrap exactly one type
    /// argument; carries the parameter name.
    MalformedOptional(String),
    /// Two methods carry the same command name; carries that name.
    DuplicateCommand(String),
}

/// The mathematical value of an [`ExtractError`].
pub enum ExtractErrorV {
    /// A requested declaration group is absent.
    MissingTrait(Seq<char>),
    /// A return type could not be resolved to a module path.
    MissingReturnPath(Seq<char>),
    /// An optional-wrapper type without an argument.
    MissingOptionalArgument(Seq<char>),
    /// A malformed optional-wrapper type.
    MalformedOptional(Seq<char>),
    /// A duplicated command name.
    DuplicateCommand(Seq<char>),
}

impl View for ExtractError {
    type V = ExtractErrorV;

    open spec fn view(&self) -> ExtractErrorV {
        match self {
            ExtractError::MissingTrait(n) => ExtractErrorV::MissingTrait(n@),
            ExtractError::MissingReturnPath(n) => ExtractErrorV::MissingReturnPath(n@),
            ExtractError::MissingOptionalArgument(n) => ExtractErrorV::MissingOptionalArgument(n@),
            ExtractError::MalformedOptional(n) => ExtractErrorV::MalformedOptional(n@),
            ExtractError::DuplicateCommand(n) => ExtractErrorV::DuplicateCommand(n@),
        }
    }
}

/// The way an optional-wrapper type failed to unwrap: it carries no argument
/// at all, or what it carries is not exactly one type argument.
#[derive(Debug, PartialEq, Eq, Structural)]
pub enum OptionFault {
    /// Angle brackets with nothing inside them.
    MissingArgument,
    /// No angle brackets, more than one argument, or a non-type argument.
    InvalidArgument,
}

/// The fixed type-substitution table: declared types with no
/// schema-representable equivalent are replaced before use as the schema
/// type. One entry: the secret-string type maps to the plain string type.
pub open spec fn substituted(t: Seq<char>) -> Seq<char> {
    if t == "age :: secrecy :: SecretString"@ {
        "String"@
    } else {
        t
    }
}

/// The optionality inference over a declared type: a single-segment
/// `Option` wrapping exactly one type argument unwraps to that argument with
/// `required = false`; a single-segment `Vec` keeps its rendering with
/// unknown requiredness; every other type keeps its rendering with
/// `required = true`. A single-segment `Option` of any other shape is
/// malformed, which is fatal.
pub open spec fn spec_classify(ty: TypeExpr) -> Result<(Seq<char>, Option<bool>), OptionFault> {
    match ty {
        TypeExpr::Other { rendered } => Ok((rendered@, Some(true))),
        TypeExpr::Path { path, rendered } => {
            if !path.leading_colon && path.segments.len() == 1 {
                let seg = path.segments[0];
                if seg.ident@ == "Option"@ {
                    match seg.args {
                        SegArgs::Angled(args) => if args.len() == 0 {
                            Err(OptionFault::MissingArgument)
                        } else if args.len() == 1 {
                            match args[0] {
                                TypeArg::TypeValue(inner) => Ok((inner@, Some(false))),
                                _ => Err(OptionFault::InvalidArgument),
                            }
                        } else {
                            Err(OptionFault::InvalidArgument)
                        },
                        _ => Err(OptionFault::InvalidArgument),
                    }
                } else if seg.ident@ == "Vec"@ {
                    Ok((rendered@, None))
                } else {
                    Ok((rendered@, Some(true)))
                }
            } else {
                Ok((rendered@, Some(true)))
            }
        },
    }
}

/// The parameter entry extracted from one formal parameter: the receiver and
/// parameters without a simple identifier pattern are skipped (`Ok(None)`);
/// a malformed optional-wrapper type is fatal.
pub open spec fn spec_param(arg: FnArg) -> Result<Option<ParamEntryV>, ExtractErrorV> {
    match arg {
        FnArg::Receiver => Ok(None),
        FnArg::Typed { pat, ty } => match pat {
            Pattern::OtherPat => Ok(None),
            Pattern::IdentPat(name) => match spec_classify(ty) {
                Ok(p) => Ok(
                    Some(
                        ParamEntryV { name: name@, schema_ty: substituted(p.0), required: p.1 },
                    ),
                ),
                Err(OptionFault::MissingArgument) => Err(
                    ExtractErrorV::MissingOptionalArgument(name@),
                ),
                Err(OptionFault::InvalidArgument) => Err(ExtractErrorV::MalformedOptional(name@)),
            },
        },
    }
}

/// The parameter entries of a parameter list, in order; the first fatal
/// mismatch wins.
pub open spec fn spec_params(inputs: Seq<FnArg>) -> Result<Seq<ParamEntryV>, ExtractErrorV>
    decreases inputs.len(),
{
    if inputs.len() == 0 {
        Ok(Seq::empty())
    } else {
        match spec_param(inputs[0]) {
            Err(e) => Err(e),
            Ok(head) => match spec_params(inputs.drop_first()) {
                Err(e) => Err(e),
                Ok(rest) => match head {
                    Some(p) => Ok(seq![p] + rest),
                    None => Ok(rest),
                },
            },
        }
    }
}

/// The metadata entry of one command-annotated method.
pub open spec fn spec_entry(m: MethodDecl, cmd: Seq<char>) -> Result<MethodEntryV, ExtractErrorV> {
    match module_of(m.output) {
        None => Err(ExtractErrorV::MissingReturnPath(cmd)),
        Some(module) => match spec_params(m.inputs@) {
            Err(e) => Err(e),
            Ok(params) => Ok(
                MethodEntryV {
                    command: cmd,
                    description: description_of(m.attrs@),
                    module: module,
                    params: params,
                    deprecated: deprecated_of(m.attrs@),
                },
            ),
        },
    }
}

/// The entries of one declaration group, in declaration order: methods
/// without a command annotation are omitted entirely.
pub open spec fn spec_trait_entries(methods: Seq<MethodDecl>) -> Result<
    Seq<MethodEntryV>,
    ExtractErrorV,
>
    decreases methods.len(),
{
    if methods.len() == 0 {
        Ok(Seq::empty())
    } else {
        let rest_r = spec_trait_entries(methods.drop_first());
        match command_of(methods[0].attrs@) {
            None => rest_r,
            Some(cmd) => match spec_entry(methods[0], cmd) {
                Err(e) => Err(e),
                Ok(entry) => match rest_r {
                    Err(e) => Err(e),
                    Ok(rest) => Ok(seq![entry] + rest),
                },
            },
        }
    }
}

impl ExtractError {
    /// The name the error carries: the missing group, the offending command,
    /// or the offending parameter.
    pub fn name(&self) -> (r: &String)
        ensures
            match self@ {
                ExtractErrorV::MissingTrait(n) => r@ == n,
                ExtractErrorV::MissingReturnPath(n) => r@ == n,
                ExtractErrorV::MissingOptionalArgument(n) => r@ == n,
                ExtractErrorV::MalformedOptional(n) => r@ == n,
                ExtractErrorV::DuplicateCommand(n) => r@ == n,
            },
    {
        match self {
            ExtractError::MissingTrait(n) => n,
            ExtractError::MissingReturnPath(n) => n,
            ExtractError::MissingOptionalArgument(n) => n,
            ExtractError::MalformedOptional(n) => n,
            ExtractError::DuplicateCommand(n) => n,
        }
    }
}

/// Applies the fixed type-substitution table to a rendered schema type.
fn substitute(t: String) -> (r: String)
    ensures
        r@ == substituted(t@),
{
    let secret = String::from_str("age :: secrecy :: SecretString");
    if t == secret {
        String::from_str("String")
    } else {
        t
    }
}

/// Infers a parameter's schema type and optionality from its declared type.
pub fn classify_param(ty: &TypeExpr) -> (r: Result<(String, Option<bool>), OptionFault>)
    ensures
        match (r, spec_classify(*ty)) {
            (Ok(p), Ok(sp)) => p.0@ == sp.0 && p.1 == sp.1,
            (Err(f), Err(sf)) => f == sf,
            _ => false,
        },
{
    match ty {
        TypeExpr::Other { rendered } => Ok((rendered.clone(), Some(true))),
        TypeExpr::Path { path, rendered } => {
            if !path.leading_colon && path.segments.len() == 1 {
                let seg = &path.segments[0];
                let option_name = String::from_str("Option");
                let vec_name = String::from_str("Vec");
                if seg.ident == option_name {
                    match &seg.args {
                        SegArgs::Angled(args) => {
                            if args.len() == 0 {
                                Err(OptionFault::MissingArgument)
                            } else if args.len() == 1 {
                                match &args[0] {
                                    TypeArg::TypeValue(inner) => Ok((inner.clone(), Some(false))),
                                    _ => Err(OptionFault::InvalidArgument),
                                }
                            } else {
                                Err(OptionFault::InvalidArgument)
                            }
                        },
                        _ => Err(OptionFault::InvalidArgument),
                    }
                } else if seg.ident == vec_name {
                    Ok((rendered.clone(), None))
                } else {
                    Ok((rendered.clone(), Some(true)))
                }
            } else {
                Ok((rendered.clone(), Some(true)))
            }
        },
    }
}

/// Extracts the parameter entry of one formal parameter, if any.
pub fn build_param(arg: &FnArg) -> (r: Result<Option<ParamEntry>, ExtractError>)
    ensures
        match (r, spec_param(*arg)) {
            (Ok(p), Ok(sp)) => match (p, sp) {
                (Some(pe), Some(spe)) => pe@ == spe,
                (None, None) => true,
                _ => false,
            },
            (Err(e), Err(se)) => e@ == se,
            _ => false,
        },
{
    match arg {
        FnArg::Receiver => Ok(None),
        FnArg::Typed { pat, ty } => match pat {
            Pattern::OtherPat => Ok(None),
            Pattern::IdentPat(name) => match classify_param(ty) {
                Ok(p) => {
                    let (t, req) = p;
                    Ok(Some(ParamEntry { name: name.clone(), schema_ty: substitute(t), required: req }))
                },
                Err(OptionFault::MissingArgument) => Err(
                    ExtractError::MissingOptionalArgument(name.clone()),
                ),
                Err(OptionFault::InvalidArgument) => Err(
                    ExtractError::MalformedOptional(name.clone()),
                ),
            },
        },
    }
}

/// Extracts the parameter entries of a parameter list from position `i` on,
/// appending them to `acc`.
fn build_params(inputs: &Vec<FnArg>, i: usize, acc: &mut Vec<ParamEntry>) -> (r: Result<
    (),
    ExtractError,
>)
    requires
        i <= inputs.len(),
    ensures
        match (r, spec_params(inputs@.skip(i as int))) {
            (Ok(_), Ok(s)) => params_view(final(acc)@) == params_view(old(acc)@) + s,
            (Err(e), Err(se)) => e@ == se,
            _ => false,
        },
    decreases inputs.len() - i,
{
    if i < inputs.len() {
        proof {
            assert(inputs@.skip(i as int)[0] == inputs@[i as int]);
            assert(inputs@.skip(i as int).drop_first() =~= inputs@.skip(i as int + 1));
        }
        match build_param(&inputs[i]) {
            Err(e) => Err(e),
            Ok(head) => {
                let ghost acc0 = acc@;
                let ghost head_v = match head {
                    Some(ref pe) => seq![pe@],
                    None => Seq::<ParamEntryV>::empty(),
                };
                match head {
                    Some(pe) => {
                        acc.push(pe);
                        proof {
                            assert(params_view(acc@) =~= params_view(acc0) + head_v);
                        }
                    },
                    None => {
                        proof {
                            assert(params_view(acc@) =~= params_view(acc0) + head_v);
                        }
                    },
                }
                let ghost acc1 = acc@;
                let r = build_params(inputs, i + 1, acc);
                proof {
                    match spec_params(inputs@.skip(i as int + 1)) {
                        Ok(s) => {
                            if r is Ok {
                                assert(params_view(acc@) == params_view(acc1) + s);
                                assert((params_view(acc0) + head_v) + s =~= params_view(acc0) + (
                                head_v + s));
                            }
                        },
                        Err(_) => {},
                    }
                }
                r
            },
        }
    } else {
        proof {
            assert(inputs@.skip(i as int) =~= Seq::<FnArg>::empty());
            assert(params_view(acc@) =~= params_view(acc@) + Seq::<ParamEntryV>::empty());
        }
        Ok(())
    }
}

/// Finds the method's command annotation, from attribute `i` on.
fn find_command(attrs: &Vec<Attribute>, i: usize) -> (r: Option<String>)
    requires
        i <= attrs.len(),
    ensures
        match (r, command_of(attrs@.skip(i as int))) {
            (Some(c), Some(sc)) => c@ == sc,
            (None, None) => true,
            _ => false,
        },
    decreases attrs.len() - i,
{
    if i < attrs.len() {
        proof {
            assert(attrs@.skip(i as int)[0] == attrs@[i as int]);
            assert(attrs@.skip(i as int).drop_first() =~= attrs@.skip(i as int + 1));
        }
        match &attrs[i] {
            Attribute::Command(name) => Some(name.clone()),
            _ => find_command(attrs, i + 1),
        }
    } else {
        proof {
            assert(attrs@.skip(i as int) =~= Seq::<Attribute>::empty());
        }
        None
    }
}

/// Whether a deprecation marker stands among the attributes from `i` on.
fn find_deprecated(attrs: &Vec<Attribute>, i: usize) -> (r: bool)
    requires
        i <= attrs.len(),
    ensures
        r == deprecated_of(attrs@.skip(i as int)),
    decreases attrs.len() - i,
{
    if i < attrs.len() {
        proof {
            assert(attrs@.skip(i as int)[0] == attrs@[i as int]);
            assert(attrs@.skip(i as int).drop_first() =~= attrs@.skip(i as int + 1));
        }
        match &attrs[i] {
            Attribute::Deprecated => true,
            _ => find_deprecated(attrs, i + 1),
        }
    } else {
        proof {
            assert(attrs@.skip(i as int) =~= Seq::<Attribute>::empty());
        }
        false
    }
}

/// Builds the metadata entry of one command-annotated method.
pub fn build_entry(m: &MethodDecl, cmd: String) -> (r: Result<MethodEntry, ExtractError>)
    ensures
        match (r, spec_entry(*m, cmd@)) {
            (Ok(e), Ok(se)) => e@ == se,
            (Err(e), Err(se)) => e@ == se,
            _ => false,
        },
{
    let module: String = match &m.output {
        ReturnType::Typed(ty) => match ty {
            TypeExpr::Path { path, .. } => {
                if path.segments.len() > 0 {
                    path.segments[0].ident.clone()
                } else {
                    return Err(ExtractError::MissingReturnPath(cmd));
                }
            },
            _ => {
                return Err(ExtractError::MissingReturnPath(cmd));
            },
        },
        _ => {
            return Err(ExtractError::MissingReturnPath(cmd));
        },
    };
    let mut params: Vec<ParamEntry> = Vec::new();
    let params_r = build_params(&m.inputs, 0, &mut params);
    proof {
        assert(m.inputs@.skip(0) =~= m.inputs@);
    }
    match params_r {
        Err(e) => {
            return Err(e);
        },
        Ok(_) => (),
    }
    proof {
        assert(params_view(Seq::<ParamEntry>::empty()) + spec_params(
            m.inputs@,
        )->Ok_0 =~= spec_params(m.inputs@)->Ok_0);
    }
    let mut desc_chars: Vec<char> = Vec::new();
    push_description_from(&m.attrs, 0, &mut desc_chars);
    proof {
        assert(m.attrs@.skip(0) =~= m.attrs@);
        assert(desc_chars@ =~= description_of(m.attrs@));
    }
    let description = chars_to_string(desc_chars);
    let deprecated = find_deprecated(&m.attrs, 0);
    Ok(MethodEntry { command: cmd, description, module, params, deprecated })
}

/// The first declaration group whose name is `name`.
pub open spec fn spec_find_trait(traits: Seq<TraitDecl>, name: Seq<char>) -> Option<TraitDecl>
    decreases traits.len(),
{
    if traits.len() == 0 {
        None
    } else if traits[0].ident@ == name {
        Some(traits[0])
    } else {
        spec_find_trait(traits.drop_first(), name)
    }
}

/// Finds the first declaration group named `name`, from position `i` on.
fn find_trait(traits: &Vec<TraitDecl>, i: usize, name: &String) -> (r: Option<usize>)
    requires
        i <= traits.len(),
    ensures
        match r {
            Some(j) => i <= j < traits.len() && spec_find_trait(traits@.skip(i as int), name@)
                == Some(traits@[j as int]),
            None => spec_find_trait(traits@.skip(i as int), name@) is None,
        },
    decreases traits.len() - i,
{
    if i < traits.len() {
        proof {
            assert(traits@.skip(i as int)[0] == traits@[i as int]);
            assert(traits@.skip(i as int).drop_first() =~= traits@.skip(i as int + 1));
        }
        if traits[i].ident == *name {
            Some(i)
        } else {
            find_trait(traits, i + 1, name)
        }
    } else {
        proof {
            assert(traits@.skip(i as int) =~= Seq::<TraitDecl>::empty());
        }
        None
    }
}

/// The values of a sequence of requested group names.
pub open spec fn names_view(names: Seq<String>) -> Seq<Seq<char>> {
    names.map_values(|s: String| s@)
}

/// The first requested name with no matching declaration group.
pub open spec fn spec_missing_name(traits: Seq<TraitDecl>, names: Seq<Seq<char>>) -> Option<
    Seq<char>,
>
    decreases names.len(),
{
    if names.len() == 0 {
        None
    } else if spec_find_trait(traits, names[0]) is None {
        Some(names[0])
    } else {
        spec_missing_name(traits, names.drop_first())
    }
}

/// Finds the first requested name, from position `i` on, with no matching
/// declaration group.
fn first_missing(src: &SourceFile, names: &Vec<String>, i: usize) -> (r: Option<String>)
    requires
        i <= names.len(),
    ensures
        match (r, spec_missing_name(src.traits@, names_view(names@).skip(i as int))) {
            (Some(n), Some(sn)) => n@ == sn,
            (None, None) => true,
            _ => false,
        },
    decreases names.len() - i,
{
    if i < names.len() {
        proof {
            assert(names_view(names@).skip(i as int)[0] == names@[i as int]@);
            assert(names_view(names@).skip(i as int).drop_first() =~= names_view(names@).skip(
                i as int + 1,
            ));
        }
        let found = find_trait(&src.traits, 0, &names[i]);
        proof {
            assert(src.traits@.skip(0) =~= src.traits@);
        }
        match found {
            None => Some(names[i].clone()),
            Some(_) => first_missing(src, names, i + 1),
        }
    } else {
        proof {
            assert(names_view(names@).skip(i as int) =~= Seq::<Seq<char>>::empty());
        }
        None
    }
}

/// The entries of the requested declaration groups, in request order and
/// declaration order.
pub open spec fn spec_entries_for_names(traits: Seq<TraitDecl>, names: Seq<Seq<char>>) -> Result<
    Seq<MethodEntryV>,
    ExtractErrorV,
>
    decreases names.len(),
{
    if names.len() == 0 {
        Ok(Seq::empty())
    } else {
        match spec_find_trait(traits, names[0]) {
            None => Err(ExtractErrorV::MissingTrait(names[0])),
            Some(t) => match spec_trait_entries(t.methods@) {
                Err(e) => Err(e),
                Ok(head) => match spec_entries_for_names(traits, names.drop_first()) {
                    Err(e) => Err(e),
                    Ok(rest) => Ok(head + rest),
                },
            },
        }
    }
}

/// Builds the entries of one declaration group, from method `i` on, appending
/// them to `acc`.
fn build_trait_entries(methods: &Vec<MethodDecl>, i: usize, acc: &mut Vec<MethodEntry>) -> (r:
    Result<(), ExtractError>)
    requires
        i <= methods.len(),
    ensures
        match (r, spec_trait_entries(methods@.skip(i as int))) {
            (Ok(_), Ok(s)) => entries_view(final(acc)@) == entries_view(old(acc)@) + s,
            (Err(e), Err(se)) => e@ == se,
            _ => false,
        },
    decreases methods.len() - i,
{
    if i < methods.len() {
        proof {
            assert(methods@.skip(i as int)[0] == methods@[i as int]);
            assert(methods@.skip(i as int).drop_first() =~= methods@.skip(i as int + 1));
        }
        let cmd_opt = find_command(&methods[i].attrs, 0);
        proof {
            assert(methods@[i as int].attrs@.skip(0) =~= methods@[i as int].attrs@);
        }
        match cmd_opt {
            None => build_trait_entries(methods, i + 1, acc),
            Some(cmd) => match build_entry(&methods[i], cmd) {
                Err(e) => Err(e),
                Ok(entry) => {
                    let ghost acc0 = acc@;
                    let ghost ev = entry@;
                    acc.push(entry);
                    proof {
                        assert(entries_view(acc@) =~= entries_view(acc0) + seq![ev]);
                    }
                    let r = build_trait_entries(methods, i + 1, acc);
                    proof {
                        match spec_trait_entries(methods@.skip(i as int + 1)) {
                            Ok(s) => {
                                if r is Ok {
                                    assert((entries_view(acc0) + seq![ev]) + s =~= entries_view(
                                        acc0,
                                    ) + (seq![ev] + s));
                                }
                            },
                            Err(_) => {},
                        }
                    }
                    r
                },
            },
        }
    } else {
        proof {
            assert(methods@.skip(i as int) =~= Seq::<MethodDecl>::empty());
            assert(entries_view(acc@) =~= entries_view(acc@) + Seq::<MethodEntryV>::empty());
        }
        Ok(())
    }
}

/// Builds the entries of the requested groups, from request `i` on, appending
/// them to `acc`.
fn entries_for_names(src: &SourceFile, names: &Vec<String>, i: usize, acc: &mut Vec<MethodEntry>)
    -> (r: Result<(), ExtractError>)
    requires
        i <= names.len(),
    ensures
        match (r, spec_entries_for_names(src.traits@, names_view(names@).skip(i as int))) {
            (Ok(_), Ok(s)) => entries_view(final(acc)@) == entries_view(old(acc)@) + s,
            (Err(e), Err(se)) => e@ == se,
            _ => false,
        },
    decreases names.len() - i,
{
    if i < names.len() {
        proof {
            assert(names_view(names@).skip(i as int)[0] == names@[i as int]@);
            assert(names_view(names@).skip(i as int).drop_first() =~= names_view(names@).skip(
                i as int + 1,
            ));
        }
        let found = find_trait(&src.traits, 0, &names[i]);
        proof {
            assert(src.traits@.skip(0) =~= src.traits@);
        }
        match found {
            None => Err(ExtractError::MissingTrait(names[i].clone())),
            Some(j) => {
                let ghost acc0 = acc@;
                let r_head = build_trait_entries(&src.traits[j].methods, 0, acc);
                proof {
                    assert(src.traits@[j as int].methods@.skip(0) =~= src.traits@[
                        j as int].methods@);
                }
                match r_head {
                    Err(e) => Err(e),
                    Ok(_) => {
                        let ghost acc1 = acc@;
                        let r = entries_for_names(src, names, i + 1, acc);
                        proof {
                            match (
                                spec_trait_entries(src.traits@[j as int].methods@),
                                spec_entries_for_names(
                                    src.traits@,
                                    names_view(names@).skip(i as int + 1),
                                ),
                            ) {
                                (Ok(head), Ok(rest)) => {
                                    if r is Ok {
                                        assert((entries_view(acc0) + head) + rest =~= entries_view(
                                            acc0,
                                        ) + (head + rest));
                                    }
                                },
                                _ => {},
                            }
                        }
                        r
                    },
                }
            },
        }
    } else {
        proof {
            assert(names_view(names@).skip(i as int) =~= Seq::<Seq<char>>::empty());
            assert(entries_view(acc@) =~= entries_view(acc@) + Seq::<MethodEntryV>::empty());
        }
        Ok(())
    }
}

/// The first command name, scanning from position `j`, that repeats an
/// earlier one.
pub open spec fn dup_from(entries: Seq<MethodEntryV>, j: nat) -> Option<Seq<char>>
    decreases entries.len() - j,
{
    if j >= entries.len() {
        None
    } else if exists|k: int| 0 <= k < j && entries[k].command == entries[j as int].command {
        Some(entries[j as int].command)
    } else {
        dup_from(entries, j + 1)
    }
}

/// Finds the first command name, from position `j` on, that repeats an
/// earlier one.
fn find_dup_from(entries: &Vec<MethodEntry>, j: usize) -> (r: Option<String>)
    requires
        j <= entries.len(),
    ensures
        match (r, dup_from(entries_view(entries@), j as nat)) {
            (Some(c), Some(sc)) => c@ == sc,
            (None, None) => true,
            _ => false,
        },
    decreases entries.len() - j,
{
    if j < entries.len() {
        let mut k: usize = 0;
        while k < j
            invariant
                k <= j < entries.len(),
                forall|m: int|
                    0 <= m < k ==> entries@[m]@.command != entries@[j as int]@.command,
            decreases j - k,
        {
            if entries[k].command == entries[j].command {
                proof {
                    assert(entries_view(entries@)[k as int].command == entries_view(entries@)[
                        j as int].command);
                }
                return Some(entries[j].command.clone());
            }
            k += 1;
        }
        proof {
            assert forall|m: int|
                0 <= m < j implies entries_view(entries@)[m].command != entries_view(entries@)[
                j as int].command by {
                assert(entries_view(entries@)[m] == entries@[m]@);
            }
        }
        find_dup_from(entries, j + 1)
    } else {
        None
    }
}

/// The whole extraction: every requested group must be present; the entries
/// of the requested groups, in request and declaration order, with every
/// command name unique.
pub open spec fn spec_extract(src: SourceFile, names: Seq<Seq<char>>) -> Result<
    Seq<MethodEntryV>,
    ExtractErrorV,
> {
    match spec_missing_name(src.traits@, names) {
        Some(n) => Err(ExtractErrorV::MissingTrait(n)),
        None => match spec_entries_for_names(src.traits@, names) {
            Err(e) => Err(e),
            Ok(entries) => match dup_from(entries, 0) {
                Some(c) => Err(ExtractErrorV::DuplicateCommand(c)),
                None => Ok(entries),
            },
        },
    }
}

/// Extracts the method entries of the requested declaration groups.
pub fn extract_entries(src: &SourceFile, trait_names: &Vec<String>) -> (r: Result<
    Vec<MethodEntry>,
    ExtractError,
>)
    ensures
        match (r, spec_extract(*src, names_view(trait_names@))) {
            (Ok(v), Ok(s)) => entries_view(v@) == s,
            (Err(e), Err(se)) => e@ == se,
            _ => false,
        },
{
    let missing = first_missing(src, trait_names, 0);
    proof {
        assert(names_view(trait_names@).skip(0) =~= names_view(trait_names@));
    }
    match missing {
        Some(n) => {
            return Err(ExtractError::MissingTrait(n));
        },
        None => (),
    }
    let mut entries: Vec<MethodEntry> = Vec::new();
    match entries_for_names(src, trait_names, 0, &mut entries) {
        Err(e) => {
            return Err(e);
        },
        Ok(_) => (),
    }
    proof {
        assert(entries_view(Seq::<MethodEntry>::empty()) + spec_entries_for_names(
            src.traits@,
            names_view(trait_names@),
        )->Ok_0 =~= spec_entries_for_names(src.traits@, names_view(trait_names@))->Ok_0);
    }
    match find_dup_from(&entries, 0) {
        Some(c) => Err(ExtractError::DuplicateCommand(c)),
        None => Ok(entries),
    }
}

/// The requiredness expression emitted for one parameter: a boolean literal
/// when optionality was inferred, else a reference to the helper constant
/// `PARAM_<UPPERCASED_NAME>_REQUIRED` in the method's module.
pub open spec fn required_text(module: Seq<char>, name: Seq<char>, required: Option<bool>) -> Seq<
    char,
> {
    match required {
        Some(true) => "true"@,
        Some(false) => "false"@,
        None => "self::"@ + module + "::PARAM_"@ + upper_of(name) + "_REQUIRED"@,
    }
}

/// The emitted accessor for one parameter.
pub open spec fn param_text(module: Seq<char>, p: ParamEntryV) -> Seq<char> {
    "        _g.param::<"@ + p.schema_ty + ">(\""@ + p.name + "\", crate::methods::PARAM_"@
        + upper_of(p.name) + "_DESC, "@ + required_text(module, p.name, p.required) + "),\n"@
}

/// The emitted accessors of a parameter list, in order.
pub open spec fn params_text(module: Seq<char>, params: Seq<ParamEntryV>) -> Seq<char>
    decreases params.len(),
{
    if params.len() == 0 {
        Seq::empty()
    } else {
        param_text(module, params[0]) + params_text(module, params.drop_first())
    }
}

/// The emitted table entry of one method.
pub open spec fn entry_text(e: MethodEntryV) -> Seq<char> {
    "\""@ + e.command + "\" => RpcMethod {\n    description: \""@ + e.description
        + "\",\n    params: |_g| vec![\n"@ + params_text(e.module, e.params)
        + "    ],\n    result: |g| g.result::<openrpsee::openrpc::ResultType>(\""@ + e.command
        + "_result\"),\n    deprecated: "@ + (if e.deprecated {
        "true"@
    } else {
        "false"@
    }) + ",\n},\n"@
}

/// The emitted table entries, in order.
pub open spec fn entries_text(entries: Seq<MethodEntryV>) -> Seq<char>
    decreases entries.len(),
{
    if entries.len() == 0 {
        Seq::empty()
    } else {
        entry_text(entries[0]) + entries_text(entries.drop_first())
    }
}

/// The fixed heading of the emitted table literal.
pub open spec fn table_header() -> Seq<char> {
    "/// Lookup table for JSON-RPC methods.\n#[allow(unused_qualifications)]\npub static METHODS: ::phf::Map<&str, RpcMethod> = ::phf::phf_map! {\n"@
}

/// The whole emitted table literal.
pub open spec fn table_text(entries: Seq<MethodEntryV>) -> Seq<char> {
    table_header() + entries_text(entries) + "};"@
}

/// Renders the accessor of one parameter.
fn render_param(module: &String, p: &ParamEntry, out: &mut Vec<char>)
    ensures
        final(out)@ == old(out)@ + param_text(module@, p@),
{
    push_str_chars("        _g.param::<", out);
    push_str_chars(p.schema_ty.as_str(), out);
    push_str_chars(">(\"", out);
    push_str_chars(p.name.as_str(), out);
    push_str_chars("\", crate::methods::PARAM_", out);
    let up = to_upper(p.name.as_str());
    push_str_chars(up.as_str(), out);
    push_str_chars("_DESC, ", out);
    match p.required {
        Some(true) => push_str_chars("true", out),
        Some(false) => push_str_chars("false", out),
        None => {
            push_str_chars("self::", out);
            push_str_chars(module.as_str(), out);
            push_str_chars("::PARAM_", out);
            push_str_chars(up.as_str(), out);
            push_str_chars("_REQUIRED", out);
        },
    }
    push_str_chars("),\n", out);
    proof {
        assert(out@ =~= old(out)@ + param_text(module@, p@));
    }
}

/// Renders the accessors of a parameter list, from position `i` on.
fn render_params(module: &String, params: &Vec<ParamEntry>, i: usize, out: &mut Vec<char>)
    requires
        i <= params.len(),
    ensures
        final(out)@ == old(out)@ + params_text(module@, params_view(params@).skip(i as int)),
    decreases params.len() - i,
{
    if i < params.len() {
        proof {
            assert(params_view(params@).skip(i as int)[0] == params@[i as int]@);
            assert(params_view(params@).skip(i as int).drop_first() =~= params_view(params@).skip(
                i as int + 1,
            ));
        }
        render_param(module, &params[i], out);
        render_params(module, params, i + 1, out);
        proof {
            assert(out@ =~= old(out)@ + params_text(module@, params_view(params@).skip(i as int)));
        }
    } else {
        proof {
            assert(params_view(params@).skip(i as int) =~= Seq::<ParamEntryV>::empty());
        }
    }
}

/// Renders the table entry of one method.
fn render_entry(e: &MethodEntry, out: &mut Vec<char>)
    ensures
        final(out)@ == old(out)@ + entry_text(e@),
{
    push_str_chars("\"", out);
    push_str_chars(e.command.as_str(), out);
    push_str_chars("\" => RpcMethod {\n    description: \"", out);
    push_str_chars(e.description.as_str(), out);
    push_str_chars("\",\n    params: |_g| vec![\n", out);
    render_params(&e.module, &e.params, 0, out);
    proof {
        assert(params_view(e.params@).skip(0) =~= params_view(e.params@));
    }
    push_str_chars("    ],\n    result: |g| g.result::<openrpsee::openrpc::ResultType>(\"", out);
    push_str_chars(e.command.as_str(), out);
    push_str_chars("_result\"),\n    deprecated: ", out);
    if e.deprecated {
        push_str_chars("true", out);
    } else {
        push_str_chars("false", out);
    }
    push_str_chars(",\n},\n", out);
    proof {
        assert(out@ =~= old(out)@ + entry_text(e@));
    }
}

/// Renders the table entries, from position `i` on.
fn render_entries(entries: &Vec<MethodEntry>, i: usize, out: &mut Vec<char>)
    requires
        i <= entries.len(),
    ensures
        final(out)@ == old(out)@ + entries_text(entries_view(entries@).skip(i as int)),
    decreases entries.len() - i,
{
    if i < entries.len() {
        proof {
            assert(entries_view(entries@).skip(i as int)[0] == entries@[i as int]@);
            assert(entries_view(entries@).skip(i as int).drop_first() =~= entries_view(
                entries@,
            ).skip(i as int + 1));
        }
        render_entry(&entries[i], out);
        render_entries(entries, i + 1, out);
        proof {
            assert(out@ =~= old(out)@ + entries_text(entries_view(entries@).skip(i as int)));
        }
    } else {
        proof {
            assert(entries_view(entries@).skip(i as int) =~= Seq::<MethodEntryV>::empty());
        }
    }
}

/// Renders the whole static table literal for the given entries.
pub fn render_methods_table(entries: &Vec<MethodEntry>) -> (r: String)
    ensures
        r@ == table_text(entries_view(entries@)),
{
    let mut out: Vec<char> = Vec::new();
    push_str_chars(
        "/// Lookup table for JSON-RPC methods.\n#[allow(unused_qualifications)]\npub static METHODS: ::phf::Map<&str, RpcMethod> = ::phf::phf_map! {\n",
        &mut out,
    );
    render_entries(entries, 0, &mut out);
    push_str_chars("};", &mut out);
    proof {
        assert(entries_view(entries@).skip(0) =~= entries_view(entries@));
        assert(out@ =~= table_text(entries_view(entries@)));
    }
    chars_to_string(out)
}

/// The whole extractor: locates the requested declaration groups, extracts
/// every command-annotated method, and renders the static lookup table
/// literal; fatal conditions surface as the error whose name they carry.
pub fn generate_methods_table(src: &SourceFile, trait_names: &Vec<String>) -> (r: Result<
    String,
    ExtractError,
>)
    ensures
        match (r, spec_extract(*src, names_view(trait_names@))) {
            (Ok(text), Ok(entries)) => text@ == table_text(entries),
            (Err(e), Err(se)) => e@ == se,
            _ => false,
        },
{
    match extract_entries(src, trait_names) {
        Err(e) => Err(e),
        Ok(entries) => Ok(render_methods_table(&entries)),
    }
}

/// The command names of the command-annotated methods, in declaration order.
pub open spec fn annotated_commands(methods: Seq<MethodDecl>) -> Seq<Seq<char>>
    decreases methods.len(),
{
    if methods.len() == 0 {
        Seq::empty()
    } else {
        let rest = annotated_commands(methods.drop_first());
        match command_of(methods[0].attrs@) {
            Some(c) => seq![c] + rest,
            None => rest,
        }
    }
}

/// The extractor is deterministic: two runs on identical input produce
/// identical output, so repeated extraction gives byte-identical artifacts.
pub proof fn lemma_extraction_deterministic(
    src1: SourceFile,
    src2: SourceFile,
    names1: Seq<Seq<char>>,
    names2: Seq<Seq<char>>,
)
    requires
        src1 == src2,
        names1 == names2,
    ensures
        spec_extract(src1, names1) == spec_extract(src2, names2),
{
}

/// The command names keying a sequence of entries, in order.
pub open spec fn commands_of(entries: Seq<MethodEntryV>) -> Seq<Seq<char>> {
    entries.map_values(|e: MethodEntryV| e.command)
}

/// The command names of the command-annotated methods of every requested
/// group, in request and declaration order.
pub open spec fn all_annotated_commands(traits: Seq<TraitDecl>, names: Seq<Seq<char>>) -> Seq<
    Seq<char>,
>
    decreases names.len(),
{
    if names.len() == 0 {
        Seq::empty()
    } else {
        let rest = all_annotated_commands(traits, names.drop_first());
        match spec_find_trait(traits, names[0]) {
            Some(t) => annotated_commands(t.methods@) + rest,
            None => rest,
        }
    }
}

/// A successful extraction of one declaration group yields exactly the
/// command-annotated methods, keyed by their command names in declaration
/// order; methods without a command annotation are omitted entirely.
pub proof fn lemma_entries_cover_commands(methods: Seq<MethodDecl>)
    requires
        spec_trait_entries(methods) is Ok,
    ensures
        commands_of(spec_trait_entries(methods)->Ok_0) == annotated_commands(methods),
    decreases methods.len(),
{
    let f = |e: MethodEntryV| e.command;
    if methods.len() == 0 {
        assert(commands_of(spec_trait_entries(methods)->Ok_0) =~= annotated_commands(methods));
    } else {
        let rest = methods.drop_first();
        match command_of(methods[0].attrs@) {
            None => {
                lemma_entries_cover_commands(rest);
            },
            Some(cmd) => {
                lemma_entries_cover_commands(rest);
                let entry = spec_entry(methods[0], cmd)->Ok_0;
                let rest_entries = spec_trait_entries(rest)->Ok_0;
                assert((seq![entry] + rest_entries).map_values(f) =~= seq![cmd]
                    + rest_entries.map_values(f));
            },
        }
    }
}

/// A successful pass over the requested groups yields exactly their
/// command-annotated methods' names, in request and declaration order.
proof fn lemma_names_cover_commands(traits: Seq<TraitDecl>, names: Seq<Seq<char>>)
    requires
        spec_entries_for_names(traits, names) is Ok,
    ensures
        commands_of(spec_entries_for_names(traits, names)->Ok_0) == all_annotated_commands(
            traits,
            names,
        ),
    decreases names.len(),
{
    let f = |e: MethodEntryV| e.command;
    if names.len() == 0 {
        assert(commands_of(spec_entries_for_names(traits, names)->Ok_0) =~= all_annotated_commands(
            traits,
            names,
        ));
    } else {
        match spec_find_trait(traits, names[0]) {
            None => {},
            Some(t) => {
                lemma_entries_cover_commands(t.methods@);
                lemma_names_cover_commands(traits, names.drop_first());
                let head = spec_trait_entries(t.methods@)->Ok_0;
                let rest = spec_entries_for_names(traits, names.drop_first())->Ok_0;
                assert((head + rest).map_values(f) =~= head.map_values(f) + rest.map_values(f));
            },
        }
    }
}

/// A successful extraction's table holds exactly one entry per
/// command-annotated method of the requested groups, keyed by its command
/// name, and omits methods without a command annotation entirely.
pub proof fn lemma_table_covers_commands(src: SourceFile, names: Seq<Seq<char>>)
    requires
        spec_extract(src, names) is Ok,
    ensures
        commands_of(spec_extract(src, names)->Ok_0) == all_annotated_commands(src.traits@, names),
{
    lemma_names_cover_commands(src.traits@, names);
}

/// In a successful extraction no command name repeats, from position `j` on.
proof fn lemma_dup_none(entries: Seq<MethodEntryV>, j: nat)
    requires
        dup_from(entries, j) is None,
    ensures
        forall|i: int, k: int|
            0 <= i < k < entries.len() && j <= k ==> entries[i].command != entries[k].command,
    decreases entries.len() - j,
{
    if j < entries.len() {
        lemma_dup_none(entries, j + 1);
    }
}

/// A successful extraction holds exactly one entry per command name: no two
/// entries share their key.
pub proof fn lemma_commands_unique(src: SourceFile, names: Seq<Seq<char>>)
    requires
        spec_extract(src, names) is Ok,
    ensures
        forall|i: int, k: int|
            0 <= i < k < spec_extract(src, names)->Ok_0.len() ==> spec_extract(
                src,
                names,
            )->Ok_0[i].command != spec_extract(src, names)->Ok_0[k].command,
{
    let entries = spec_extract(src, names)->Ok_0;
    lemma_dup_none(entries, 0);
}

/// Optionality inference: the optional-wrapper of a type yields that type
/// with `required = false`; a bare sequence type keeps its rendering with
/// unknown requiredness; every other type keeps its rendering with
/// `required = true`.
pub proof fn lemma_optionality_inference(ty: TypeExpr)
    ensures
        (match ty {
            TypeExpr::Other { rendered } => spec_classify(ty) == Ok::<
                (Seq<char>, Option<bool>),
                OptionFault,
            >((rendered@, Some(true))),
            TypeExpr::Path { path, rendered } => {
                if !path.leading_colon && path.segments.len() == 1 {
                    let seg = path.segments[0];
                    if seg.ident@ == "Option"@ {
                        match seg.args {
                            SegArgs::Angled(args) => if args.len() == 0 {
                                spec_classify(ty) == Err::<(Seq<char>, Option<bool>), OptionFault>(
                                    OptionFault::MissingArgument,
                                )
                            } else if args.len() == 1 {
                                match args[0] {
                                    TypeArg::TypeValue(inner) => spec_classify(ty) == Ok::<
                                        (Seq<char>, Option<bool>),
                                        OptionFault,
                                    >((inner@, Some(false))),
                                    _ => spec_classify(ty) == Err::<
                                        (Seq<char>, Option<bool>),
                                        OptionFault,
                                    >(OptionFault::InvalidArgument),
                                }
                            } else {
                                spec_classify(ty) == Err::<(Seq<char>, Option<bool>), OptionFault>(
                                    OptionFault::InvalidArgument,
                                )
                            },
                            _ => spec_classify(ty) == Err::<(Seq<char>, Option<bool>), OptionFault>(
                                OptionFault::InvalidArgument,
                            ),
                        }
                    } else if seg.ident@ == "Vec"@ {
                        spec_classify(ty) == Ok::<(Seq<char>, Option<bool>), OptionFault>(
                            (rendered@, None),
                        )
                    } else {
                        spec_classify(ty) == Ok::<(Seq<char>, Option<bool>), OptionFault>(
                            (rendered@, Some(true)),
                        )
                    }
                } else {
                    spec_classify(ty) == Ok::<(Seq<char>, Option<bool>), OptionFault>(
                        (rendered@, Some(true)),
                    )
                }
            },
        }),
{
}

/// Type substitution: a parameter whose classified schema type is the
/// secret-string type always yields schema type `String`, whatever
/// optionality the wrapping inferred.
pub proof fn lemma_secret_string_substitution(arg: FnArg)
    ensures
        (match arg {
            FnArg::Typed { pat, ty } => match pat {
                Pattern::IdentPat(name) => match spec_classify(ty) {
                    Ok(c) => c.0 == "age :: secrecy :: SecretString"@ ==> spec_param(arg) == Ok::<
                        Option<ParamEntryV>,
                        ExtractErrorV,
                    >(Some(ParamEntryV { name: name@, schema_ty: "String"@, required: c.1 })),
                    _ => true,
                },
                _ => true,
            },
            _ => true,
        }),
{
}

/// A requested group name with no matching declaration aborts the whole
/// extraction with an error naming a missing group.
pub proof fn lemma_missing_group(src: SourceFile, names: Seq<Seq<char>>, i: int)
    requires
        0 <= i < names.len(),
        spec_find_trait(src.traits@, names[i]) is None,
    ensures
        spec_extract(src, names) matches Err(e) && e matches ExtractErrorV::MissingTrait(m)
            && names.contains(m) && spec_find_trait(src.traits@, m) is None,
{
    lemma_missing_name_found(src.traits@, names, i);
}

/// When some requested name has no matching group, the scan reports a
/// requested name that has none.
proof fn lemma_missing_name_found(traits: Seq<TraitDecl>, names: Seq<Seq<char>>, i: int)
    requires
        0 <= i < names.len(),
        spec_find_trait(traits, names[i]) is None,
    ensures
        spec_missing_name(traits, names) matches Some(m) && names.contains(m) && spec_find_trait(
            traits,
            m,
        ) is None,
    decreases names.len(),
{
    if spec_find_trait(traits, names[0]) is None {
        assert(names.contains(names[0]));
    } else {
        lemma_missing_name_found(traits, names.drop_first(), i - 1);
        let m = spec_missing_name(traits, names.drop_first())->0;
        let j = choose|j: int| 0 <= j < names.drop_first().len() && names.drop_first()[j] == m;
        assert(names[j + 1] == m);
        assert(names.contains(m));
    }
}

} // verus!
