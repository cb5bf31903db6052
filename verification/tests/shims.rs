use mbedtls_bindgen::shims::{
    generate_deprecated_union_accessors, render_union_accessors, ShimError, UnionDescriptor,
    UnionField,
};

fn field(name: &str, ty: &str) -> UnionField {
    UnionField { name: name.to_string(), ty: ty.to_string() }
}

fn union_of(name: &str, fields: Vec<UnionField>) -> UnionDescriptor {
    UnionDescriptor { name: name.to_string(), fields }
}

fn printed(source: &str) -> String {
    let tokens: proc_macro2::TokenStream = source.parse().unwrap();
    tokens.to_string()
}

#[test]
fn two_fields_give_two_accessors_in_order() {
    let text = render_union_accessors(&vec![union_of(
        "U",
        vec![field("a", "T1"), field("b", "T2")],
    )]);
    assert_eq!(
        text,
        "impl U { # [deprecated] pub unsafe fn a (& mut self) -> * mut T1 { & mut self . a } \
         # [deprecated] pub unsafe fn b (& mut self) -> * mut T2 { & mut self . b } }"
    );
    assert_eq!(text.matches("# [deprecated]").count(), 2);
    assert_eq!(text.matches("pub unsafe fn").count(), 2);
}

#[test]
fn accessors_match_the_token_printer() {
    let source = "pub union U { pub a: u32, pub b: *mut ::std::os::raw::c_void, pub c: [u8; 4usize] }";
    let text = generate_deprecated_union_accessors(source).unwrap();
    let expected = printed(
        "impl U {
            #[deprecated] pub unsafe fn a(&mut self) -> *mut u32 { &mut self.a }
            #[deprecated] pub unsafe fn b(&mut self) -> *mut *mut ::std::os::raw::c_void { &mut self.b }
            #[deprecated] pub unsafe fn c(&mut self) -> *mut [u8; 4usize] { &mut self.c }
        }",
    );
    assert_eq!(text, expected);
}

#[test]
fn generated_shims_parse_as_rust() {
    let source = "#[repr(C)] pub union A { pub x: u8, pub y: u16 } pub union B { pub z: A }";
    let text = generate_deprecated_union_accessors(source).unwrap();
    let file = syn::parse_file(&text).unwrap();
    assert_eq!(file.items.len(), 2);
}

#[test]
fn source_without_unions_gives_no_shims() {
    let source = "pub struct S { pub a: u32 } pub const X: u32 = 1; pub fn f() {}";
    assert_eq!(generate_deprecated_union_accessors(source), Ok(String::new()));
    assert_eq!(generate_deprecated_union_accessors(""), Ok(String::new()));
}

#[test]
fn union_without_fields_gives_an_empty_impl() {
    assert_eq!(generate_deprecated_union_accessors("union E {}"), Ok("impl E { }".to_string()));
    assert_eq!(printed("impl E {}"), "impl E { }");
}

#[test]
fn impl_blocks_follow_each_other_without_separator() {
    let source = "union A { a: u8 } struct S; union B { b: u8 }";
    let text = generate_deprecated_union_accessors(source).unwrap();
    assert_eq!(
        text,
        "impl A { # [deprecated] pub unsafe fn a (& mut self) -> * mut u8 { & mut self . a } }\
         impl B { # [deprecated] pub unsafe fn b (& mut self) -> * mut u8 { & mut self . b } }"
    );
}

#[test]
fn surrounding_declarations_do_not_change_a_union_block() {
    let alone = generate_deprecated_union_accessors("union U { a: T1, b: T2 }").unwrap();
    let after = generate_deprecated_union_accessors(
        "pub fn f() {} pub struct S { a: u8 } union U { a: T1, b: T2 } pub const C: u8 = 0;",
    )
    .unwrap();
    assert_eq!(alone, after);
}

#[test]
fn malformed_source_is_rejected() {
    assert_eq!(
        generate_deprecated_union_accessors("union { a: u8 "),
        Err(ShimError::MalformedSource)
    );
    assert_eq!(
        generate_deprecated_union_accessors("pub fn ("),
        Err(ShimError::MalformedSource)
    );
}

#[test]
fn unions_of_nested_modules_are_found_in_source_order() {
    let source = "union A { a: u8 } mod m { union B { b: u8 } mod n { union C { c: u8 } } } union D { d: u8 }";
    let text = generate_deprecated_union_accessors(source).unwrap();
    let a = text.find("impl A").unwrap();
    let b = text.find("impl B").unwrap();
    let c = text.find("impl C").unwrap();
    let d = text.find("impl D").unwrap();
    assert!(a < b && b < c && c < d);
    assert_eq!(text.matches("impl ").count(), 4);
}

#[test]
fn rendering_goes_union_by_union() {
    let a = union_of("A", vec![field("a", "u8")]);
    let b = union_of("B", vec![]);
    let c = union_of("C", vec![field("x", "u8"), field("y", "u16")]);
    let all = render_union_accessors(&vec![
        union_of("A", vec![field("a", "u8")]),
        union_of("B", vec![]),
        union_of("C", vec![field("x", "u8"), field("y", "u16")]),
    ]);
    let one_by_one = format!(
        "{}{}{}",
        render_union_accessors(&vec![a]),
        render_union_accessors(&vec![b]),
        render_union_accessors(&vec![c])
    );
    assert_eq!(all, one_by_one);
    assert_eq!(render_union_accessors(&vec![]), "");
}

#[test]
fn raw_identifiers_keep_their_prefix() {
    let text = generate_deprecated_union_accessors("union U { r#type: u8 }").unwrap();
    assert_eq!(
        text,
        printed("impl U { #[deprecated] pub unsafe fn r#type(&mut self) -> *mut u8 { &mut self.r#type } }")
    );
}

#[test]
fn unions_inside_other_items_are_found() {
    assert_eq!(
        generate_deprecated_union_accessors("fn f() { union U { a: u8 } }"),
        Ok("impl U { # [deprecated] pub unsafe fn a (& mut self) -> * mut u8 { & mut self . a } }"
            .to_string())
    );
    assert_eq!(
        generate_deprecated_union_accessors("const _: () = { union U { } };"),
        Ok("impl U { }".to_string())
    );
    assert_eq!(
        generate_deprecated_union_accessors("impl S { fn m(&self) { if true { union U { } } } }"),
        Ok("impl U { }".to_string())
    );
    assert_eq!(
        generate_deprecated_union_accessors(
            "union A { } fn f() { union B { } } mod m { fn g() { union C { } } union D { } } union E { }"
        ),
        Ok("impl A { }impl B { }impl C { }impl D { }impl E { }".to_string())
    );
}

#[test]
fn the_walk_does_not_go_into_a_union() {
    assert_eq!(
        generate_deprecated_union_accessors("union U { a: [u8; { union X { } 4 }] }"),
        Ok("impl U { # [deprecated] pub unsafe fn a (& mut self) -> * mut [u8 ; { union X { } 4 }] \
            { & mut self . a } }"
            .to_string())
    );
}

#[test]
fn module_without_body_holds_no_declarations() {
    assert_eq!(generate_deprecated_union_accessors("mod m; union U {}"), Ok("impl U { }".to_string()));
}

#[test]
fn literals_of_every_kind_are_parsed() {
    let source = "const A: &core::ffi::CStr = c\"x\"; const B: &[u8] = b\"x\"; const C: u8 = b'x'; \
                  const D: f64 = 1.5e3; const E: &str = r#\"x\"#; union U { a: u8 }";
    assert_eq!(
        generate_deprecated_union_accessors(source),
        Ok("impl U { # [deprecated] pub unsafe fn a (& mut self) -> * mut u8 { & mut self . a } }"
            .to_string())
    );
}

#[test]
fn error_marker_in_expression_position_is_no_panic() {
    let outcome = generate_deprecated_union_accessors("const A: u8 = (/*ERROR*/); union U {}");
    assert_eq!(outcome, Ok("impl U { }".to_string()));
}
