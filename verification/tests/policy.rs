use mbedtls_bindgen::policy::{
    DeriveTrait, EnumVariantValue, ImplementsTrait, IntKind, MbedtlsParseCallbacks,
};

fn renamed(name: &str) -> String {
    MbedtlsParseCallbacks.item_name(name).unwrap()
}

const NAMES: [&str; 22] = [
    "",
    "x",
    "mbedtls_",
    "MBEDTLS_",
    "mbedtls_foo_bar",
    "MBEDTLS_ERR_AES_INVALID_KEY_LENGTH",
    "mbedtls_mbedtls_x",
    "MBEDTLS_MBEDTLS_X",
    "mbedtls_MBEDTLS_x",
    "MBEDTLS_mbedtls_x",
    "mbedtls_mbedtls_MBEDTLS_MBEDTLS_mbedtls_x",
    "Mbedtls_x",
    "mbedtls",
    "mbedtl_x",
    "xmbedtls_y",
    "foo_mbedtls_",
    "mbedtls_é",
    "émbedtls_x",
    "mbedtls_mbedtls",
    "MBEDTLS_mbedtls_MBEDTLS_x",
    "psa_crypto_init",
    "mbedtls_time_t",
];

#[test]
fn prefixed_function_name_loses_its_prefix() {
    assert_eq!(renamed("mbedtls_foo_bar"), "foo_bar");
    assert!(!renamed("mbedtls_foo_bar").contains("mbedtls_"));
}

#[test]
fn upper_case_prefix_is_removed() {
    assert_eq!(renamed("MBEDTLS_ERR_AES_INVALID_KEY_LENGTH"), "ERR_AES_INVALID_KEY_LENGTH");
}

#[test]
fn names_without_prefix_stay() {
    assert_eq!(renamed("psa_crypto_init"), "psa_crypto_init");
    assert_eq!(renamed("Mbedtls_x"), "Mbedtls_x");
    assert_eq!(renamed("xmbedtls_y"), "xmbedtls_y");
    assert_eq!(renamed("mbedtls"), "mbedtls");
    assert_eq!(renamed(""), "");
}

#[test]
fn a_repeated_prefix_is_removed_once() {
    assert_eq!(renamed("mbedtls_mbedtls_x"), "mbedtls_x");
    assert_eq!(renamed("MBEDTLS_MBEDTLS_X"), "MBEDTLS_X");
    assert_eq!(renamed("mbedtls_mbedtls"), "mbedtls");
    assert_eq!(renamed("mbedtls_"), "");
    assert_eq!(renamed("MBEDTLS_"), "");
}

#[test]
fn lower_case_prefix_is_removed_before_the_upper_case_one() {
    assert_eq!(renamed("mbedtls_MBEDTLS_x"), "x");
    assert_eq!(renamed("MBEDTLS_mbedtls_x"), "mbedtls_x");
    assert_eq!(renamed("mbedtls_MBEDTLS_mbedtls_x"), "mbedtls_x");
    assert_eq!(renamed("MBEDTLS_mbedtls_MBEDTLS_x"), "mbedtls_MBEDTLS_x");
    assert_eq!(
        renamed("mbedtls_mbedtls_MBEDTLS_MBEDTLS_mbedtls_x"),
        "mbedtls_MBEDTLS_MBEDTLS_mbedtls_x"
    );
}

#[test]
fn item_name_agrees_with_strip_prefix() {
    for name in NAMES {
        let first = name.strip_prefix("mbedtls_").unwrap_or(name);
        let expected = first.strip_prefix("MBEDTLS_").unwrap_or(first);
        assert_eq!(renamed(name), expected, "for {:?}", name);
    }
}

#[test]
fn rewriting_a_stripped_name_twice_is_rewriting_it_once() {
    for name in NAMES {
        if name.starts_with("mbedtls_") || name.starts_with("MBEDTLS_") {
            continue;
        }
        let once = renamed(name);
        assert_eq!(once, name);
        assert_eq!(renamed(&once), once);
    }
}

#[test]
fn second_rewrite_changes_only_names_left_with_a_prefix() {
    for name in NAMES {
        let once = renamed(name);
        let twice = renamed(&once);
        let stripped = !once.starts_with("mbedtls_") && !once.starts_with("MBEDTLS_");
        assert_eq!(twice == once, stripped, "for {:?}", name);
        assert!(name.ends_with(&once));
        assert!(once.chars().count() + 16 >= name.chars().count());
    }
    assert_eq!(renamed(&renamed("mbedtls_mbedtls_x")), "x");
    assert_eq!(renamed(&renamed("MBEDTLS_mbedtls_x")), "x");
}

#[test]
fn enum_variants_follow_the_item_rule() {
    let policy = MbedtlsParseCallbacks;
    for name in NAMES {
        assert_eq!(
            policy.enum_variant_name(Some("mbedtls_md_type_t"), name, EnumVariantValue::Signed(-1)),
            policy.item_name(name)
        );
        assert_eq!(
            policy.enum_variant_name(None, name, EnumVariantValue::Unsigned(7)),
            policy.item_name(name)
        );
    }
    assert_eq!(
        policy.enum_variant_name(None, "MBEDTLS_MD_SHA256", EnumVariantValue::Boolean(true)),
        Some("MD_SHA256".to_string())
    );
}

#[test]
fn int_macro_is_standard_width_up_to_the_i32_bounds() {
    let policy = MbedtlsParseCallbacks;
    assert_eq!(policy.int_macro("X", 2147483647), Some(IntKind::Int));
    assert_eq!(policy.int_macro("X", -2147483648), Some(IntKind::Int));
    assert_eq!(policy.int_macro("X", 0), Some(IntKind::Int));
    assert_eq!(policy.int_macro("X", -1), Some(IntKind::Int));
}

#[test]
fn int_macro_is_extended_width_beyond_the_i32_bounds() {
    let policy = MbedtlsParseCallbacks;
    assert_eq!(policy.int_macro("X", 2147483648), Some(IntKind::LongLong));
    assert_eq!(policy.int_macro("X", -2147483649), Some(IntKind::LongLong));
    assert_eq!(policy.int_macro("X", i64::MAX), Some(IntKind::LongLong));
    assert_eq!(policy.int_macro("X", i64::MIN), Some(IntKind::LongLong));
}

#[test]
fn int_macro_does_not_depend_on_the_name() {
    let policy = MbedtlsParseCallbacks;
    assert_eq!(policy.int_macro("", 1), policy.int_macro("MBEDTLS_X", 1));
    assert_eq!(policy.int_macro("", 1 << 40), policy.int_macro("MBEDTLS_X", 1 << 40));
}

#[test]
fn default_is_written_by_hand_and_other_traits_are_derived() {
    let policy = MbedtlsParseCallbacks;
    assert_eq!(
        policy.blocklisted_type_implements_trait("mbedtls_time_t", DeriveTrait::Default),
        Some(ImplementsTrait::Manually)
    );
    for derive_trait in [
        DeriveTrait::Copy,
        DeriveTrait::Debug,
        DeriveTrait::Hash,
        DeriveTrait::PartialEqOrPartialOrd,
    ] {
        assert_eq!(
            policy.blocklisted_type_implements_trait("mbedtls_time_t", derive_trait),
            Some(ImplementsTrait::Yes)
        );
        assert_eq!(
            policy.blocklisted_type_implements_trait("", derive_trait),
            Some(ImplementsTrait::Yes)
        );
    }
}
