//! The shim synthesizer: for every union among the generated declarations,
//! one `impl` block with one deprecated accessor per field.
//!
//! The generated source is parsed and walked by `syn`, which hands over every
//! union declaration it meets. The text of the shims is made here, and is
//! verified.

use quote::ToTokens;
use vstd::prelude::*;
use vstd::string::*;

verus! {

broadcast use vstd::seq::group_seq_axioms;

/// One field of a union: its name and the text of its type.
#[derive(Debug, PartialEq, Eq)]
pub struct UnionField {
    pub name: String,
    pub ty: String,
}

/// A union declaration: its name and its fields in declaration order.
#[derive(Debug, PartialEq, Eq)]
pub struct UnionDescriptor {
    pub name: String,
    pub fields: Vec<UnionField>,
}

/// Why no shims could be synthesized.
#[derive(Debug, Clone, Copy, PartialEq, Eq, Structural)]
pub enum ShimError {
    /// The generated source is not a well-formed Rust file.
    MalformedSource,
}

/// Mathematical model of a [`UnionField`].
pub struct FieldView {
    pub name: Seq<char>,
    pub ty: Seq<char>,
}

/// Mathematical model of a [`UnionDescriptor`].
pub struct UnionView {
    pub name: Seq<char>,
    pub fields: Seq<FieldView>,
}

impl View for UnionField {
    type V = FieldView;

    open spec fn view(&self) -> FieldView {
        FieldView { name: self.name@, ty: self.ty@ }
    }
}

impl View for UnionDescriptor {
    type V = UnionView;

    open spec fn view(&self) -> UnionView {
        UnionView {
            name: self.name@,
            fields: Seq::new(self.fields@.len(), |i: int| self.fields@[i]@),
        }
    }
}

/// The models of a sequence of union descriptors, in order.
pub open spec fn unions_view(unions: Seq<UnionDescriptor>) -> Seq<UnionView> {
    Seq::new(unions.len(), |i: int| unions[i]@)
}

/// The accessor for one field: a deprecated method of the field's name that
/// hands out a raw mutable pointer to the field.
pub open spec fn accessor_text(f: FieldView) -> Seq<char> {
    "# [deprecated] pub unsafe fn "@ + f.name + " (& mut self) -> * mut "@ + f.ty
        + " { & mut self . "@ + f.name + " }"@
}

/// The accessors for a sequence of fields, in order, each followed by a space.
pub open spec fn accessors_text(fields: Seq<FieldView>) -> Seq<char>
    decreases fields.len(),
{
    if fields.len() == 0 {
        Seq::empty()
    } else {
        accessors_text(fields.drop_last()) + accessor_text(fields.last()) + " "@
    }
}

/// The `impl` block for one union.
pub open spec fn impl_text(u: UnionView) -> Seq<char> {
    "impl "@ + u.name + " { "@ + accessors_text(u.fields) + "}"@
}

/// The `impl` blocks for a sequence of unions, in order, with nothing between.
pub open spec fn shim_text(unions: Seq<UnionView>) -> Seq<char>
    decreases unions.len(),
{
    if unions.len() == 0 {
        Seq::empty()
    } else {
        shim_text(unions.drop_last()) + impl_text(unions.last())
    }
}

/// The unions of a source text: `None` where `syn::parse_file` reports an
/// error, else every union declaration that `syn::visit::visit_file` meets in
/// the parsed file, in the order of the walk, each with its name and its
/// fields. Names and types are texts as a token stream prints them outside of
/// a procedural macro.
pub uninterp spec fn parsed_unions(source: Seq<char>) -> Option<Seq<UnionView>>;

/// `syn::ItemUnion`, a parsed union declaration; opaque here.
#[verifier::external_type_specification]
#[verifier::external_body]
pub struct ParsedUnion(syn::ItemUnion);

/// Gathers the unions that the walk of a parsed file meets.
struct UnionCollector {
    found: Vec<UnionDescriptor>,
}

impl<'ast> syn::visit::Visit<'ast> for UnionCollector {
    /// Called by `syn::visit::visit_file` for every union declaration.
    /// Converts the union and keeps it: `Ident::to_string` gives the names,
    /// `ToTokens::to_token_stream` with `to_string` the text of a type.
    /// Nothing is claimed here; what is kept is part of what
    /// [`parsed_unions`] names.
    #[verifier::external_body]
    fn visit_item_union(&mut self, item: &'ast syn::ItemUnion) {
        let fields = item.fields.named.iter().map(|field| UnionField {
            name: field.ident.as_ref().map(|ident| ident.to_string()).unwrap_or_default(),
            ty: field.ty.to_token_stream().to_string(),
        });
        self.found.push(UnionDescriptor { name: item.ident.to_string(), fields: fields.collect() });
    }
}

/// Parses a Rust source file with `syn::parse_file` and walks it with
/// `syn::visit::visit_file`.
///
/// The contract claims only that the outcome is a function of the text alone,
/// which [`parsed_unions`] names.
#[verifier::external_body]
fn parse_unions(source: &str) -> (parsed: Option<Vec<UnionDescriptor>>)
    ensures
        match parsed {
            Some(unions) => parsed_unions(source@) == Some(unions_view(unions@)),
            None => parsed_unions(source@) is None,
        },
{
    let file = syn::parse_file(source).ok()?;
    let mut collector = UnionCollector { found: Vec::new() };
    syn::visit::visit_file(&mut collector, &file);
    Some(collector.found)
}

/// Appends the accessor for one field.
fn append_accessor(text: &mut String, field: &UnionField)
    ensures
        final(text)@ == old(text)@ + accessor_text(field@),
{
    text.append("# [deprecated] pub unsafe fn ");
    text.append(field.name.as_str());
    text.append(" (& mut self) -> * mut ");
    text.append(field.ty.as_str());
    text.append(" { & mut self . ");
    text.append(field.name.as_str());
    text.append(" }");
    assert(text@ =~= old(text)@ + accessor_text(field@));
}

/// Appends the `impl` block for one union.
fn append_impl(text: &mut String, union_type: &UnionDescriptor)
    ensures
        final(text)@ == old(text)@ + impl_text(union_type@),
{
    let ghost before = text@;
    let ghost fields = union_type@.fields;
    text.append("impl ");
    text.append(union_type.name.as_str());
    text.append(" { ");
    let ghost head = text@;
    let mut i: usize = 0;
    while i < union_type.fields.len()
        invariant
            i <= union_type.fields.len(),
            fields == union_type@.fields,
            text@ == head + accessors_text(fields.take(i as int)),
        decreases union_type.fields.len() - i,
    {
        assert(fields.take(i + 1).drop_last() =~= fields.take(i as int));
        assert(fields.take(i + 1).last() == union_type.fields@[i as int]@);
        append_accessor(text, &union_type.fields[i]);
        text.append(" ");
        assert(text@ =~= head + accessors_text(fields.take(i + 1)));
        i += 1;
    }
    assert(fields.take(i as int) =~= fields);
    text.append("}");
    assert(text@ =~= before + impl_text(union_type@));
}

/// Renders the accessor shims for a sequence of unions: one `impl` block per
/// union, in order, each with one accessor per field, in field order.
pub fn render_union_accessors(unions: &Vec<UnionDescriptor>) -> (text: String)
    ensures
        text@ == shim_text(unions_view(unions@)),
{
    let ghost views = unions_view(unions@);
    let mut text = String::new();
    let mut i: usize = 0;
    while i < unions.len()
        invariant
            i <= unions.len(),
            views == unions_view(unions@),
            text@ == shim_text(views.take(i as int)),
        decreases unions.len() - i,
    {
        assert(views.take(i + 1).drop_last() =~= views.take(i as int));
        assert(views.take(i + 1).last() == unions@[i as int]@);
        append_impl(&mut text, &unions[i]);
        i += 1;
    }
    assert(views.take(i as int) =~= views);
    text
}

/// Generates the deprecated union accessors for a generated source text.
///
/// Fails exactly where the text is not a well-formed Rust file; else the
/// result is the shim text for the unions of the text: one block for every
/// union declaration, wherever in the file it stands.
pub fn generate_deprecated_union_accessors(bindings: &str) -> (shims: Result<String, ShimError>)
    ensures
        match shims {
            Ok(text) => parsed_unions(bindings@) matches Some(unions) && text@ == shim_text(unions),
            Err(e) => parsed_unions(bindings@) is None && e == ShimError::MalformedSource,
        },
{
    match parse_unions(bindings) {
        Some(unions) => Ok(render_union_accessors(&unions)),
        None => Err(ShimError::MalformedSource),
    }
}

/// The accessors of two field lists, one after the other, are the accessors
/// of the first followed by those of the second: each field gives one
/// accessor, and the accessors stand in field order.
pub proof fn lemma_accessors_concat(first: Seq<FieldView>, second: Seq<FieldView>)
    ensures
        accessors_text(first + second) == accessors_text(first) + accessors_text(second),
    decreases second.len(),
{
    if second.len() == 0 {
        assert(first + second =~= first);
    } else {
        lemma_accessors_concat(first, second.drop_last());
        assert((first + second).drop_last() =~= first + second.drop_last());
        assert((first + second).last() == second.last());
    }
}

/// A union with the two fields `a` and `b` gets exactly two accessors: the
/// one for `a`, then the one for `b`, each named as its field and handing out
/// a pointer to its field's type.
pub proof fn lemma_two_field_union(name: Seq<char>, a: FieldView, b: FieldView)
    ensures
        impl_text(UnionView { name, fields: seq![a, b] }) == "impl "@ + name + " { "@
            + accessor_text(a) + " "@ + accessor_text(b) + " "@ + "}"@,
{
    let fields = seq![a, b];
    assert(fields.drop_last() =~= seq![a]);
    assert(seq![a].drop_last() =~= Seq::<FieldView>::empty());
    assert(accessors_text(Seq::<FieldView>::empty()) =~= Seq::<char>::empty());
    assert(accessors_text(seq![a]) =~= accessor_text(a) + " "@);
    assert(accessors_text(fields) =~= accessor_text(a) + " "@ + accessor_text(b) + " "@);
}

/// The shims of two union lists, one after the other, are the shims of the
/// first followed by those of the second.
pub proof fn lemma_shim_text_concat(first: Seq<UnionView>, second: Seq<UnionView>)
    ensures
        shim_text(first + second) == shim_text(first) + shim_text(second),
    decreases second.len(),
{
    if second.len() == 0 {
        assert(first + second =~= first);
    } else {
        lemma_shim_text_concat(first, second.drop_last());
        assert((first + second).drop_last() =~= first + second.drop_last());
        assert((first + second).last() == second.last());
    }
}

/// The block for a union does not depend on the unions around it: with any
/// unions before and after, the shims are those of the unions before, then
/// the union's own block, then those of the unions after.
pub proof fn lemma_union_block_is_independent(
    before: Seq<UnionView>,
    u: UnionView,
    after: Seq<UnionView>,
)
    ensures
        shim_text(before + seq![u] + after) == shim_text(before) + impl_text(u) + shim_text(after),
{
    assert(seq![u].drop_last() =~= Seq::<UnionView>::empty());
    assert(shim_text(Seq::<UnionView>::empty()) =~= Seq::<char>::empty());
    assert(shim_text(seq![u]) =~= impl_text(u));
    lemma_shim_text_concat(before, seq![u]);
    lemma_shim_text_concat(before + seq![u], after);
}

} // verus!
