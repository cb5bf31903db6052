//! The normalization policy that the declaration extractor consults for
//! every declaration: how names are rewritten, which integer kind a macro
//! constant gets, and which traits a blocklisted type is taken to implement.

use crate::text::{lemma_without_prefix, strip_prefix, without_prefix};
use vstd::prelude::*;
use vstd::string::*;

verus! {

broadcast use vstd::seq::group_seq_axioms;

/// The library's prefix in lower case.
pub open spec fn lower_prefix() -> Seq<char> {
    "mbedtls_"@
}

/// The library's prefix in upper case.
pub open spec fn upper_prefix() -> Seq<char> {
    "MBEDTLS_"@
}

/// The rewritten name: first the lower-case prefix is removed where the name
/// starts with it, then the upper-case prefix where what is left starts with
/// that. Each is removed once.
pub open spec fn stripped_name(name: Seq<char>) -> Seq<char> {
    without_prefix(without_prefix(name, lower_prefix()), upper_prefix())
}

/// A name that carries neither prefix.
pub open spec fn is_stripped(name: Seq<char>) -> bool {
    !lower_prefix().is_prefix_of(name) && !upper_prefix().is_prefix_of(name)
}

/// Whether a value fits a 32-bit signed integer.
pub open spec fn fits_standard_width(value: int) -> bool {
    -0x8000_0000 <= value <= 0x7fff_ffff
}

/// The integer kind of a macro constant.
#[derive(Debug, Clone, Copy, PartialEq, Eq, Structural)]
pub enum IntKind {
    /// Standard width: a 32-bit signed integer.
    Int,
    /// Extended width: a 64-bit signed integer.
    LongLong,
}

/// A trait that the extractor may derive for a generated type.
#[derive(Debug, Clone, Copy, PartialEq, Eq, Structural)]
pub enum DeriveTrait {
    Copy,
    Debug,
    Default,
    Hash,
    PartialEqOrPartialOrd,
}

/// Whether a type implements a trait, and how.
#[derive(Debug, Clone, Copy, PartialEq, Eq, Structural)]
pub enum ImplementsTrait {
    /// The trait can be derived.
    Yes,
    /// The trait cannot be derived; an implementation is written by hand.
    Manually,
    /// The type does not implement the trait.
    No,
}

/// The value of an enum variant.
#[derive(Debug, Clone, Copy, PartialEq, Eq, Structural)]
pub enum EnumVariantValue {
    Boolean(bool),
    Signed(i64),
    Unsigned(u64),
}

/// The integer kind for a macro constant of the given value.
pub open spec fn int_kind_of(value: int) -> IntKind {
    if fits_standard_width(value) {
        IntKind::Int
    } else {
        IntKind::LongLong
    }
}

/// How a blocklisted type implements a trait: `Default` by hand, every other
/// trait by derivation.
pub open spec fn trait_support(derive_trait: DeriveTrait) -> ImplementsTrait {
    if derive_trait == DeriveTrait::Default {
        ImplementsTrait::Manually
    } else {
        ImplementsTrait::Yes
    }
}

/// The policy object. It has no state: each answer depends on the question
/// alone.
#[derive(Debug, Clone, Copy, PartialEq, Eq, Structural)]
pub struct MbedtlsParseCallbacks;

impl MbedtlsParseCallbacks {
    /// The name under which an item is generated: its name in the headers without
    /// the library's prefixes.
    pub fn item_name(&self, original_item_name: &str) -> (renamed: Option<String>)
        ensures
            renamed matches Some(name) && name@ == stripped_name(original_item_name@),
    {
        let rest = strip_prefix(strip_prefix(original_item_name, "mbedtls_"), "MBEDTLS_");
        Some(rest.to_owned())
    }

    /// The name under which an enum variant is generated: the item rule,
    /// whatever the enum and the variant's value.
    pub fn enum_variant_name(
        &self,
        enum_name: Option<&str>,
        original_variant_name: &str,
        variant_value: EnumVariantValue,
    ) -> (renamed: Option<String>)
        ensures
            renamed matches Some(name) && name@ == stripped_name(original_variant_name@),
    {
        self.item_name(original_variant_name)
    }

    /// The integer kind of a macro constant: standard width where the value
    /// fits a 32-bit signed integer, extended width otherwise.
    pub fn int_macro(&self, name: &str, value: i64) -> (kind: Option<IntKind>)
        ensures
            kind == Some(int_kind_of(value as int)),
    {
        if value < -0x8000_0000i64 || value > 0x7fff_ffffi64 {
            Some(IntKind::LongLong)
        } else {
            Some(IntKind::Int)
        }
    }

    /// How a blocklisted type implements a trait.
    pub fn blocklisted_type_implements_trait(
        &self,
        name: &str,
        derive_trait: DeriveTrait,
    ) -> (support: Option<ImplementsTrait>)
        ensures
            support == Some(trait_support(derive_trait)),
    {
        if derive_trait == DeriveTrait::Default {
            Some(ImplementsTrait::Manually)
        } else {
            Some(ImplementsTrait::Yes)
        }
    }
}

} // verus!

verus! {

/// Both prefixes have eight characters, and they differ in the first.
pub proof fn lemma_prefixes()
    ensures
        lower_prefix().len() == 8,
        upper_prefix().len() == 8,
        lower_prefix()[0] == 'm',
        upper_prefix()[0] == 'M',
{
    reveal_strlit("mbedtls_");
    reveal_strlit("MBEDTLS_");
}

/// A rewritten name is a tail of the name it was made of, shorter by no
/// more than the two prefixes.
pub proof fn lemma_stripped_name_shape(name: Seq<char>)
    ensures
        stripped_name(name).is_suffix_of(name),
        name.len() - 16 <= stripped_name(name).len() <= name.len(),
{
    lemma_prefixes();
    let first = without_prefix(name, lower_prefix());
    let second = stripped_name(name);
    lemma_without_prefix(name, lower_prefix());
    lemma_without_prefix(first, upper_prefix());
    assert(second =~= name.subrange(name.len() - second.len(), name.len() as int)) by {
        assert(second =~= first.subrange(first.len() - second.len(), first.len() as int));
        assert(first =~= name.subrange(name.len() - first.len(), name.len() as int));
    }
}

/// The names that the rewrite leaves as they are, are exactly those that
/// carry neither prefix.
pub proof fn lemma_fixed_names(name: Seq<char>)
    ensures
        stripped_name(name) == name <==> is_stripped(name),
{
    lemma_prefixes();
    let first = without_prefix(name, lower_prefix());
    lemma_without_prefix(name, lower_prefix());
    lemma_without_prefix(first, upper_prefix());
}

/// Name normalization is idempotent on stripped names: rewriting a name that
/// carries neither prefix twice gives what rewriting it once gives, the name
/// itself.
pub proof fn lemma_item_name_idempotent(name: Seq<char>)
    requires
        is_stripped(name),
    ensures
        stripped_name(stripped_name(name)) == stripped_name(name),
        stripped_name(name) == name,
{
    lemma_fixed_names(name);
}

/// A prefix is removed once: of a name that starts with the lower-case
/// prefix twice, the second occurrence stays.
pub proof fn lemma_repeated_prefix_stays(rest: Seq<char>)
    ensures
        stripped_name(lower_prefix() + lower_prefix() + rest) == lower_prefix() + rest,
        stripped_name(upper_prefix() + upper_prefix() + rest) == upper_prefix() + rest,
{
    lemma_prefixes();
    let lower = lower_prefix();
    let upper = upper_prefix();
    assert(lower + lower + rest =~= lower + (lower + rest));
    assert(upper + upper + rest =~= upper + (upper + rest));
    lemma_without_prefix(lower + rest, lower);
    lemma_without_prefix(upper + rest, upper);
    assert(lower =~= (lower + (lower + rest)).subrange(0, 8));
    assert((lower + (lower + rest)).skip(8) =~= lower + rest);
    assert(upper =~= (upper + (upper + rest)).subrange(0, 8));
    assert((upper + (upper + rest)).skip(8) =~= upper + rest);
    assert(!upper.is_prefix_of(lower + rest)) by {
        assert((lower + rest).subrange(0, 8)[0] == 'm');
    }
    assert(!lower.is_prefix_of(upper + (upper + rest))) by {
        assert((upper + (upper + rest)).subrange(0, 8)[0] == 'M');
    }
}

/// A second rewrite changes nothing exactly where the first one left a name
/// that carries neither prefix. (A name such as `mbedtls_mbedtls_x` comes out
/// as `mbedtls_x`, which a second rewrite shortens again.)
pub proof fn lemma_second_rewrite(name: Seq<char>)
    ensures
        stripped_name(stripped_name(name)) == stripped_name(name) <==> is_stripped(
            stripped_name(name),
        ),
{
    lemma_fixed_names(stripped_name(name));
}

/// The integer kind is standard width exactly for the values of a 32-bit
/// signed integer, and extended width for all others.
pub proof fn lemma_int_kind(value: int)
    ensures
        int_kind_of(value) == IntKind::Int <==> -0x8000_0000 <= value <= 0x7fff_ffff,
        int_kind_of(value) == IntKind::LongLong <==> (value < -0x8000_0000 || value > 0x7fff_ffff),
{
}

} // verus!
