// The generated text itself: exact expected output for each supported
// shape, determinism, order preservation, dispatch exhaustiveness and
// unit-shape minimality on concrete declarations.

use deep_clone::decl::{BodyShape, FieldsShape, Generics, TypeDeclaration, VariantDecl};
use deep_clone::emit::impl_deep_clone;

fn lifetime_and_type_param() -> Generics {
    Generics {
        lifetime_params: vec!["'a".to_string()],
        type_params: vec!["T".to_string()],
        where_predicates: vec![],
    }
}

fn no_generics() -> Generics {
    Generics { lifetime_params: vec![], type_params: vec![], where_predicates: vec![] }
}

fn named_struct_decl() -> TypeDeclaration {
    TypeDeclaration {
        name: "TestStruct".to_string(),
        generics: lifetime_and_type_param(),
        body: BodyShape::Fields(FieldsShape::Named(vec![
            "this".to_string(),
            "that".to_string(),
            "other".to_string(),
        ])),
    }
}

#[test]
fn named_struct_text() {
    let generated = impl_deep_clone(&named_struct_decl());
    assert_eq!(
        generated,
        "impl<'a, T> DeepClone for TestStruct<'a, T> where T: DeepClone \
         { type DeepCloned = TestStruct<'static, T::DeepCloned>; \
         fn deep_clone(&self) -> TestStruct<'static, T::DeepCloned> \
         { TestStruct { this: self.this.deep_clone(), that: self.that.deep_clone(), \
         other: self.other.deep_clone() } } }"
    );
}

#[test]
fn positional_struct_text() {
    let decl = TypeDeclaration {
        name: "TestTuple".to_string(),
        generics: lifetime_and_type_param(),
        body: BodyShape::Fields(FieldsShape::Positional(3)),
    };
    let generated = impl_deep_clone(&decl);
    assert_eq!(
        generated,
        "impl<'a, T> DeepClone for TestTuple<'a, T> where T: DeepClone \
         { type DeepCloned = TestTuple<'static, T::DeepCloned>; \
         fn deep_clone(&self) -> TestTuple<'static, T::DeepCloned> \
         { TestTuple(self.0.deep_clone(), self.1.deep_clone(), self.2.deep_clone()) } }"
    );
}

#[test]
fn enum_text() {
    let decl = TypeDeclaration {
        name: "TestEnum".to_string(),
        generics: lifetime_and_type_param(),
        body: BodyShape::Variants(vec![
            VariantDecl {
                name: "Structy".to_string(),
                shape: FieldsShape::Named(vec![
                    "this".to_string(),
                    "that".to_string(),
                    "other".to_string(),
                ]),
            },
            VariantDecl { name: "Tuply".to_string(), shape: FieldsShape::Positional(3) },
            VariantDecl { name: "Unity".to_string(), shape: FieldsShape::Unit },
        ]),
    };
    let generated = impl_deep_clone(&decl);
    assert_eq!(
        generated,
        "impl<'a, T> DeepClone for TestEnum<'a, T> where T: DeepClone \
         { type DeepCloned = TestEnum<'static, T::DeepCloned>; \
         fn deep_clone(&self) -> TestEnum<'static, T::DeepCloned> \
         { match *self { \
         TestEnum::Structy { ref this, ref that, ref other } => \
         TestEnum::Structy { this: this.deep_clone(), that: that.deep_clone(), \
         other: other.deep_clone() }, \
         TestEnum::Tuply(ref x0, ref x1, ref x2) => \
         TestEnum::Tuply(x0.deep_clone(), x1.deep_clone(), x2.deep_clone()), \
         TestEnum::Unity => TestEnum::Unity } } }"
    );
}

#[test]
fn enum_dispatch_is_exhaustive_and_ordered() {
    let decl = TypeDeclaration {
        name: "E".to_string(),
        generics: no_generics(),
        body: BodyShape::Variants(vec![
            VariantDecl { name: "Zig".to_string(), shape: FieldsShape::Unit },
            VariantDecl { name: "Zag".to_string(), shape: FieldsShape::Unit },
            VariantDecl { name: "Zog".to_string(), shape: FieldsShape::Unit },
        ]),
    };
    let generated = impl_deep_clone(&decl);
    // One arm per declared variant, each exactly once.
    assert_eq!(generated.matches("E::Zig => E::Zig").count(), 1);
    assert_eq!(generated.matches("E::Zag => E::Zag").count(), 1);
    assert_eq!(generated.matches("E::Zog => E::Zog").count(), 1);
    // And in declaration order.
    let zig = generated.find("E::Zig").unwrap();
    let zag = generated.find("E::Zag").unwrap();
    let zog = generated.find("E::Zog").unwrap();
    assert!(zig < zag && zag < zog);
}

#[test]
fn named_fields_keep_declaration_order() {
    let generated = impl_deep_clone(&named_struct_decl());
    let this = generated.find("this: self.this.deep_clone()").unwrap();
    let that = generated.find("that: self.that.deep_clone()").unwrap();
    let other = generated.find("other: self.other.deep_clone()").unwrap();
    assert!(this < that && that < other);
}

#[test]
fn unit_struct_text_has_no_transfer_call() {
    let decl = TypeDeclaration {
        name: "Marker".to_string(),
        generics: no_generics(),
        body: BodyShape::Fields(FieldsShape::Unit),
    };
    let generated = impl_deep_clone(&decl);
    assert_eq!(
        generated,
        "impl DeepClone for Marker { type DeepCloned = Marker; \
         fn deep_clone(&self) -> Marker { Marker } }"
    );
    // The body between the outermost braces is the bare name: no transfer
    // invocation is generated for a unit shape.
    let body_start = generated.find("-> Marker { ").unwrap() + "-> Marker { ".len();
    let body = &generated[body_start..generated.len() - " } }".len()];
    assert_eq!(body, "Marker");
    assert!(!body.contains(".deep_clone()"));
}

#[test]
fn where_predicates_follow_injected_bounds() {
    let decl = TypeDeclaration {
        name: "Pair".to_string(),
        generics: Generics {
            lifetime_params: vec![],
            type_params: vec!["A".to_string(), "B".to_string()],
            where_predicates: vec!["A: Sized".to_string(), "B: Send".to_string()],
        },
        body: BodyShape::Fields(FieldsShape::Positional(2)),
    };
    let generated = impl_deep_clone(&decl);
    assert_eq!(
        generated,
        "impl<A, B> DeepClone for Pair<A, B> \
         where A: DeepClone, B: DeepClone, A: Sized, B: Send \
         { type DeepCloned = Pair<A::DeepCloned, B::DeepCloned>; \
         fn deep_clone(&self) -> Pair<A::DeepCloned, B::DeepCloned> \
         { Pair(self.0.deep_clone(), self.1.deep_clone()) } }"
    );
}

#[test]
fn every_lifetime_is_erased_to_static() {
    let decl = TypeDeclaration {
        name: "Two".to_string(),
        generics: Generics {
            lifetime_params: vec!["'a".to_string(), "'b".to_string()],
            type_params: vec![],
            where_predicates: vec![],
        },
        body: BodyShape::Fields(FieldsShape::Unit),
    };
    let generated = impl_deep_clone(&decl);
    assert_eq!(
        generated,
        "impl<'a, 'b> DeepClone for Two<'a, 'b> \
         { type DeepCloned = Two<'static, 'static>; \
         fn deep_clone(&self) -> Two<'static, 'static> { Two } }"
    );
}

#[test]
fn generation_is_deterministic() {
    let first = impl_deep_clone(&named_struct_decl());
    let second = impl_deep_clone(&named_struct_decl());
    assert_eq!(first, second);
    assert_eq!(first.as_bytes(), second.as_bytes());
}

#[test]
fn positional_placeholders_count_past_ten() {
    let decl = TypeDeclaration {
        name: "Wide".to_string(),
        generics: no_generics(),
        body: BodyShape::Variants(vec![
            VariantDecl { name: "V".to_string(), shape: FieldsShape::Positional(11) },
        ]),
    };
    let generated = impl_deep_clone(&decl);
    assert!(generated.contains("ref x0"));
    assert!(generated.contains("ref x9"));
    assert!(generated.contains("ref x10"));
    assert!(generated.contains("x10.deep_clone()"));
}
