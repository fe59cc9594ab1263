//! OpenRPC document generation for JSON-RPC methods.
//!
//! [`Generator`] wraps the external schema-generation context: every
//! parameter and result schema is resolved against the one shared context, so
//! that the definitions of every named type land, deduplicated, in the single
//! [`Components`] section extracted at the end. [`RpcMethod`] is the metadata
//! of one method, and [`RpcMethod::generate`] assembles its document entry.

use vstd::prelude::*;
use vstd::string::StrSliceExecFns;

verus! {

/// Whether `c` carries the Unicode `White_Space` property, the set
/// `str::trim` removes: the ASCII whitespace controls and space, next line,
/// no-break space, ogham space mark, the en-quad..hair-space range, line and
/// paragraph separators, narrow no-break space, medium mathematical space,
/// and ideographic space.
pub open spec fn is_space(c: char) -> bool {
    let n = c as u32;
    (0x09 <= n && n <= 0x0d) || n == 0x20 || n == 0x85 || n == 0xa0 || n == 0x1680 || (0x2000 <= n
        && n <= 0x200a) || n == 0x2028 || n == 0x2029 || n == 0x202f || n == 0x205f || n == 0x3000
}

/// `s` without its leading whitespace.
pub open spec fn trim_start(s: Seq<char>) -> Seq<char>
    decreases s.len(),
{
    if s.len() > 0 && is_space(s[0]) {
        trim_start(s.drop_first())
    } else {
        s
    }
}

/// `s` without its trailing whitespace.
pub open spec fn trim_end(s: Seq<char>) -> Seq<char>
    decreases s.len(),
{
    if s.len() > 0 && is_space(s.last()) {
        trim_end(s.drop_last())
    } else {
        s
    }
}

/// `s` without leading and trailing whitespace.
pub open spec fn trimmed(s: Seq<char>) -> Seq<char> {
    trim_end(trim_start(s))
}

/// The text before the first newline of `s`, or all of `s` when it holds no
/// newline: the summary of a description.
pub open spec fn first_line(s: Seq<char>) -> Seq<char>
    decreases s.len(),
{
    if s.len() == 0 {
        s
    } else if s[0] == '\n' {
        Seq::empty()
    } else {
        seq![s[0]] + first_line(s.drop_first())
    }
}

/// Summary extraction: when `i` is the position of the first newline of `s`
/// (or its length when it holds none), the summary is exactly the text
/// before that position.
pub proof fn lemma_summary_before_first_newline(s: Seq<char>, i: int)
    requires
        0 <= i <= s.len(),
        forall|j: int| 0 <= j < i ==> s[j] != '\n',
        i < s.len() ==> s[i] == '\n',
    ensures
        first_line(s) == s.take(i),
    decreases s.len(),
{
    if s.len() == 0 {
        assert(first_line(s) =~= s.take(i));
    } else if s[0] == '\n' {
        assert(i == 0);
        assert(first_line(s) =~= s.take(0));
    } else {
        assert(i >= 1);
        lemma_summary_before_first_newline(s.drop_first(), i - 1);
        assert(seq![s[0]] + s.drop_first().take(i - 1) =~= s.take(i));
    }
}

/// Summary extraction for a single-line description: without a newline the
/// summary equals the whole text.
pub proof fn lemma_summary_no_newline(s: Seq<char>)
    requires
        forall|j: int| 0 <= j < s.len() ==> s[j] != '\n',
    ensures
        first_line(s) == s,
{
    lemma_summary_before_first_newline(s, s.len() as int);
    assert(s.take(s.len() as int) =~= s);
}

/// Whether `c` is trimmed whitespace.
fn is_space_char(c: char) -> (r: bool)
    ensures
        r == is_space(c),
{
    let n = c as u32;
    (0x09 <= n && n <= 0x0d) || n == 0x20 || n == 0x85 || n == 0xa0 || n == 0x1680 || (0x2000 <= n
        && n <= 0x200a) || n == 0x2028 || n == 0x2029 || n == 0x202f || n == 0x205f || n == 0x3000
}

/// `s` with leading and trailing whitespace removed.
fn trim_text(s: &str) -> (r: String)
    ensures
        r@ == trimmed(s@),
{
    let n = s.unicode_len();
    let mut start: usize = 0;
    proof {
        assert(s@.skip(0) =~= s@);
    }
    while start < n && is_space_char(s.get_char(start))
        invariant
            start <= n,
            n == s@.len(),
            trim_start(s@) == trim_start(s@.skip(start as int)),
        decreases n - start,
    {
        proof {
            assert(s@.skip(start as int).drop_first() =~= s@.skip(start as int + 1));
        }
        start += 1;
    }
    proof {
        if start < n {
            assert(trim_start(s@.skip(start as int)) == s@.skip(start as int));
        } else {
            assert(s@.skip(start as int) =~= Seq::<char>::empty());
        }
    }
    let ghost t = s@.skip(start as int);
    let mut end: usize = n;
    proof {
        assert(t.take(n - start) =~= t);
    }
    while end > start && is_space_char(s.get_char(end - 1))
        invariant
            start <= end <= n,
            n == s@.len(),
            t == s@.skip(start as int),
            trim_end(t) == trim_end(t.take(end - start)),
        decreases end,
    {
        proof {
            let k = end - start;
            assert(t.take(k).last() == s@[end - 1]);
            assert(t.take(k).drop_last() =~= t.take(k - 1));
        }
        end -= 1;
    }
    proof {
        if end > start {
            assert(t.take(end - start).last() == s@[end - 1 as int]);
            assert(trim_end(t.take(end - start)) == t.take(end - start));
        } else {
            assert(t.take(end - start) =~= Seq::<char>::empty());
        }
        assert(t.take(end - start) =~= s@.subrange(start as int, end as int));
    }
    s.substring_char(start, end).to_owned()
}

/// The text before the first newline of `s`, or all of `s`.
fn split_summary(s: &str) -> (r: String)
    ensures
        r@ == first_line(s@),
{
    let n = s.unicode_len();
    let mut i: usize = 0;
    while i < n && s.get_char(i) != '\n'
        invariant
            i <= n,
            n == s@.len(),
            forall|j: int| 0 <= j < i ==> s@[j] != '\n',
        decreases n - i,
    {
        i += 1;
    }
    proof {
        lemma_summary_before_first_newline(s@, i as int);
        assert(s@.take(i as int) =~= s@.subrange(0, i as int));
    }
    s.substring_char(0, i).to_owned()
}

/// The declared type of a schema value; relies on schemars' `Schema`.
#[verifier::external_type_specification]
#[verifier::external_body]
pub struct ExSchema(schemars::Schema);

/// The declared type of the schema-generation context; relies on schemars'
/// `SchemaGenerator`.
#[verifier::external_type_specification]
#[verifier::external_body]
pub struct ExSchemaGenerator(schemars::SchemaGenerator);

/// The declared type of a JSON value; relies on serde_json's `Value`.
#[verifier::external_type_specification]
#[verifier::external_body]
pub struct ExJsonValue(serde_json::Value);

/// The declared type of a JSON object; relies on serde_json's `Map`.
#[verifier::external_type_specification]
#[verifier::external_body]
#[verifier::reject_recursive_types(K)]
#[verifier::reject_recursive_types(V)]
pub struct ExJsonMap<K, V>(serde_json::Map<K, V>);

/// The names of the type definitions a schema-generation context has
/// accumulated.
pub uninterp spec fn defined_names(g: schemars::SchemaGenerator) -> Set<Seq<char>>;

/// The reference path a schema-generation context was configured with: the
/// prefix under which its definitions are cross-referenced.
pub uninterp spec fn defs_path(g: schemars::SchemaGenerator) -> Seq<char>;

/// The names keying a components map.
pub uninterp spec fn schema_names(m: serde_json::Map<String, serde_json::Value>) -> Set<Seq<char>>;

/// Relies on schemars' `SchemaSettings::draft07`, `SchemaGenerator::new` and
/// the `definitions_path` setting: a fresh context, configured to place every
/// definition under the given reference path, holds no definitions yet.
#[verifier::external_body]
fn fresh_generator(definitions_path: &str) -> (g: schemars::SchemaGenerator)
    ensures
        defined_names(g) == Set::<Seq<char>>::empty(),
        defs_path(g) == definitions_path@,
{
    let mut settings = schemars::generate::SchemaSettings::draft07();
    settings.definitions_path = definitions_path.to_owned().into();
    schemars::SchemaGenerator::new(settings)
}

/// Relies on schemars' `SchemaGenerator::take_definitions`: hands out every
/// definition accumulated in the context, keyed by schema name.
#[verifier::external_body]
fn take_defs(g: schemars::SchemaGenerator) -> (r: serde_json::Map<String, serde_json::Value>)
    ensures
        schema_names(r) == defined_names(g),
{
    let mut g = g;
    g.take_definitions(false)
}

/// Relies on documented's `Documented::DOCS`: the documentation text attached
/// to the type `T`.
#[verifier::external_body]
pub fn type_docs<T: documented::Documented>() -> (r: String) {
    T::DOCS.to_string()
}

/// An OpenRPC document generator: the shared schema-generation context one
/// document-assembly pass owns for its whole lifetime.
pub struct Generator {
    inner: schemars::SchemaGenerator,
}

impl Generator {
    /// The names of the type definitions accumulated so far in the shared
    /// context.
    pub closed spec fn defs(&self) -> Set<Seq<char>> {
        defined_names(self.inner)
    }

    /// The reference path the shared context places its definitions under.
    pub closed spec fn path(&self) -> Seq<char> {
        defs_path(self.inner)
    }

    /// Creates a new OpenRPC document generator, configured to place every
    /// named type definition under the components section's reference path.
    pub fn new() -> (g: Generator)
        ensures
            g.defs() == Set::<Seq<char>>::empty(),
            g.path() == "#/components/schemas/"@,
    {
        Generator { inner: fresh_generator("#/components/schemas/") }
    }

    /// Registers or resolves the schema for `T` in the shared context,
    /// adding `T`'s definitions to it; relies on schemars'
    /// `SchemaGenerator::subschema_for`, which never drops an accumulated
    /// definition and leaves the settings untouched.
    #[verifier::external_body]
    pub fn schema_for<T: schemars::JsonSchema>(&mut self) -> (s: schemars::Schema)
        ensures
            old(self).defs().subset_of(final(self).defs()),
            final(self).path() == old(self).path(),
    {
        self.inner.subschema_for::<T>()
    }

    /// Constructs the descriptor for a JSON-RPC method parameter from its
    /// resolved schema.
    pub fn param(&self, name: &str, description: &str, required: bool, schema: schemars::Schema)
        -> (d: ContentDescriptor)
        ensures
            d.name@ == name@,
            d.summary@ == first_line(description@),
            d.description@ == description@,
            d.required == required,
            d.schema == schema,
            !d.deprecated,
    {
        ContentDescriptor {
            name: name.to_owned(),
            summary: split_summary(description),
            description: description.to_owned(),
            required,
            schema,
            deprecated: false,
        }
    }

    /// Constructs the descriptor for a JSON-RPC method's result from the
    /// result type's documentation and resolved schema; a result is never
    /// required.
    pub fn result(&self, name: &str, docs: &str, schema: schemars::Schema) -> (d:
        ContentDescriptor)
        ensures
            d.name@ == name@,
            d.summary@ == first_line(docs@),
            d.description@ == docs@,
            !d.required,
            d.schema == schema,
            !d.deprecated,
    {
        ContentDescriptor {
            name: name.to_owned(),
            summary: split_summary(docs),
            description: docs.to_owned(),
            required: false,
            schema,
            deprecated: false,
        }
    }

    /// Consumes the generator and extracts every accumulated type definition
    /// into the single deduplicated components section.
    pub fn into_components(self) -> (c: Components)
        ensures
            schema_names(c.schemas) == self.defs(),
    {
        Components { schemas: take_defs(self.inner) }
    }
}

/// Static metadata about one JSON-RPC method: its documentation, its
/// pre-built parameter and result descriptors, and its deprecation flag.
pub struct RpcMethod {
    /// A description of the method.
    pub description: String,
    /// The method's parameter descriptors, in declaration order.
    pub params: Vec<ContentDescriptor>,
    /// The method's result descriptor.
    pub result: ContentDescriptor,
    /// Whether the method is deprecated.
    pub deprecated: bool,
}

impl RpcMethod {
    /// Generates the OpenRPC method descriptor: the trimmed description, its
    /// first line as the summary, and the method's own descriptors and
    /// deprecation flag.
    pub fn generate(self, name: String) -> (m: Method)
        ensures
            m.name == name,
            m.description@ == trimmed(self.description@),
            m.summary@ == first_line(trimmed(self.description@)),
            m.params == self.params,
            m.result == self.result,
            m.deprecated == self.deprecated,
    {
        let description = trim_text(self.description.as_str());
        let summary = split_summary(description.as_str());
        Method {
            name,
            summary,
            description,
            params: self.params,
            result: self.result,
            deprecated: self.deprecated,
        }
    }
}

/// An OpenRPC document.
pub struct OpenRpc {
    /// The OpenRPC specification version.
    pub openrpc: String,
    /// Information about the API.
    pub info: Info,
    /// The available JSON-RPC methods.
    pub methods: Vec<Method>,
    /// The components (schemas) used in the document.
    pub components: Components,
}

/// The result type for an API discovery request.
pub type ResultType = OpenRpc;

/// Information about the API.
pub struct Info {
    /// The title of the API.
    pub title: String,
    /// A description of the API.
    pub description: String,
    /// The version of the API.
    pub version: String,
}

/// A JSON-RPC method of the assembled document.
pub struct Method {
    /// The method's name: its command tag.
    pub name: String,
    /// The first line of the description.
    pub summary: String,
    /// The method's full documentation text, trimmed.
    pub description: String,
    /// The method's parameter descriptors.
    pub params: Vec<ContentDescriptor>,
    /// The method's result descriptor.
    pub result: ContentDescriptor,
    /// Whether the method is deprecated; omitted from the serialized form
    /// when false.
    pub deprecated: bool,
}

/// A descriptor for a JSON-RPC method's parameter or result.
pub struct ContentDescriptor {
    /// The parameter's or result's name.
    pub name: String,
    /// The first line of the description.
    pub summary: String,
    /// The full description.
    pub description: String,
    /// Whether the parameter is required; omitted from the serialized form
    /// when false.
    pub required: bool,
    /// The schema resolved for the declared type.
    pub schema: schemars::Schema,
    /// Whether the parameter is deprecated; omitted from the serialized form
    /// when false.
    pub deprecated: bool,
}

/// The components (schemas) used in the OpenRPC document: the deduplicated
/// union of every definition the shared context accumulated.
pub struct Components {
    /// The definitions, keyed by schema name.
    pub schemas: serde_json::Map<String, serde_json::Value>,
}

/// True exactly when `b` is false; the serialized document omits boolean
/// fields whose value is false.
pub fn is_false(b: &bool) -> (r: bool)
    ensures
        r == !*b,
{
    !*b
}

} // verus!
