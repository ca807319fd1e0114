use shallow_debug::{derive_shallow_debug, FieldKind, GenericParam, Shape, TypeDecl, Variant};

const FMT: &str = " { fn fmt(&self, f: &mut std::fmt::Formatter<'_>) -> std::fmt::Result { ";

fn plain(name: &str, shape: Shape) -> TypeDecl {
    TypeDecl {
        name: name.to_string(),
        generics: vec![],
        where_predicates: vec![],
        shape,
    }
}

fn variant(name: &str, fields: FieldKind) -> Variant {
    Variant {
        name: name.to_string(),
        fields,
    }
}

fn ty(ident: &str, bounds: &[&str], default: Option<&str>) -> GenericParam {
    GenericParam::Type {
        ident: ident.to_string(),
        bounds: bounds.iter().map(|b| b.to_string()).collect(),
        default: default.map(|d| d.to_string()),
    }
}

fn lifetime(name: &str, bounds: &[&str]) -> GenericParam {
    GenericParam::Lifetime {
        lifetime: name.to_string(),
        bounds: bounds.iter().map(|b| b.to_string()).collect(),
    }
}

fn expected(head: &str, body: &str) -> String {
    format!("{head}{FMT}{body} }} }}")
}

#[test]
fn unit_struct_prints_its_name() {
    let out = derive_shallow_debug(&plain("Marker", Shape::Struct(FieldKind::Unit)));
    assert_eq!(
        out,
        expected("impl std::fmt::Debug for Marker", "f.write_str(\"Marker\")")
    );
}

#[test]
fn named_struct_prints_braces() {
    let out = derive_shallow_debug(&plain("Point", Shape::Struct(FieldKind::Named)));
    assert_eq!(
        out,
        expected("impl std::fmt::Debug for Point", "f.write_str(\"Point{..}\")")
    );
}

#[test]
fn tuple_struct_prints_parens() {
    let out = derive_shallow_debug(&plain("Pair", Shape::Struct(FieldKind::Unnamed)));
    assert_eq!(
        out,
        expected("impl std::fmt::Debug for Pair", "f.write_str(\"Pair(..)\")")
    );
}

#[test]
fn union_prints_its_name() {
    let out = derive_shallow_debug(&plain("Bits", Shape::Union));
    assert_eq!(
        out,
        expected("impl std::fmt::Debug for Bits", "f.write_str(\"Bits\")")
    );
}

#[test]
fn enum_prints_the_active_variant() {
    let e = plain(
        "E",
        Shape::Enum(vec![
            variant("V1", FieldKind::Unit),
            variant("V2", FieldKind::Named),
            variant("V3", FieldKind::Unnamed),
        ]),
    );
    let out = derive_shallow_debug(&e);
    assert_eq!(
        out,
        expected(
            "impl std::fmt::Debug for E",
            "match self { E::V1 => f.write_str(\"E::V1\"), \
             E::V2{..} => f.write_str(\"E::V2{..}\"), \
             E::V3(..) => f.write_str(\"E::V3(..)\"), }"
        )
    );
}

#[test]
fn empty_enum_has_no_arms() {
    let out = derive_shallow_debug(&plain("Never", Shape::Enum(vec![])));
    assert_eq!(out, expected("impl std::fmt::Debug for Never", "match self { }"));
}

#[test]
fn same_declaration_gives_same_text() {
    let d = TypeDecl {
        name: "Tree".to_string(),
        generics: vec![ty("K", &["Ord"], None), ty("V", &[], None)],
        where_predicates: vec!["V: Clone".to_string()],
        shape: Shape::Enum(vec![
            variant("Leaf", FieldKind::Unit),
            variant("Node", FieldKind::Named),
        ]),
    };
    let first = derive_shallow_debug(&d);
    let second = derive_shallow_debug(&d.clone());
    assert_eq!(first, second);
}

#[test]
fn bounded_parameter_gets_no_debug_bound() {
    let d = TypeDecl {
        name: "Wrapper".to_string(),
        generics: vec![ty("A", &["Clone"], None)],
        where_predicates: vec![],
        shape: Shape::Enum(vec![
            variant("Held", FieldKind::Unnamed),
            variant("Empty", FieldKind::Unit),
        ]),
    };
    let out = derive_shallow_debug(&d);
    assert_eq!(
        out,
        expected(
            "impl<A> std::fmt::Debug for Wrapper<A> where A: Clone",
            "match self { Wrapper::Held(..) => f.write_str(\"Wrapper::Held(..)\"), \
             Wrapper::Empty => f.write_str(\"Wrapper::Empty\"), }"
        )
    );
    assert_eq!(out.matches("Debug").count(), 1);
}

#[test]
fn default_type_is_kept() {
    let d = TypeDecl {
        name: "Slot".to_string(),
        generics: vec![ty("T", &[], Some("u8"))],
        where_predicates: vec![],
        shape: Shape::Struct(FieldKind::Unnamed),
    };
    let out = derive_shallow_debug(&d);
    assert_eq!(
        out,
        expected(
            "impl<T = u8> std::fmt::Debug for Slot<T = u8> where ",
            "f.write_str(\"Slot(..)\")"
        )
    );
}

#[test]
fn bounded_defaulted_parameter_moves_its_bounds() {
    let d = TypeDecl {
        name: "Cell".to_string(),
        generics: vec![ty("T", &["Copy", "Send"], Some("u32"))],
        where_predicates: vec![],
        shape: Shape::Struct(FieldKind::Named),
    };
    let out = derive_shallow_debug(&d);
    assert_eq!(
        out,
        expected(
            "impl<T = u32> std::fmt::Debug for Cell<T = u32> where T: Copy + Send",
            "f.write_str(\"Cell{..}\")"
        )
    );
}

#[test]
fn no_generics_gives_plain_head() {
    let out = derive_shallow_debug(&plain("Config", Shape::Struct(FieldKind::Named)));
    assert!(out.starts_with("impl std::fmt::Debug for Config { "));
    let head = &out[..out.find(" { ").unwrap()];
    assert_eq!(head, "impl std::fmt::Debug for Config");
    assert!(!head.contains('<'));
    assert!(!out.contains("where"));
}

#[test]
fn many_variants_keep_declaration_order() {
    let names = [
        "Alpha", "Beta", "Gamma", "Delta", "Epsilon", "Zeta", "Eta", "Theta", "Iota", "Kappa",
        "Lambda", "Mu",
    ];
    let kinds = [FieldKind::Unit, FieldKind::Named, FieldKind::Unnamed];
    let variants: Vec<Variant> = names
        .iter()
        .enumerate()
        .map(|(i, n)| variant(n, kinds[i % 3]))
        .collect();
    let out = derive_shallow_debug(&plain("Greek", Shape::Enum(variants)));
    let mut arms = String::new();
    for (i, n) in names.iter().enumerate() {
        let pat = match kinds[i % 3] {
            FieldKind::Unit => format!("Greek::{n}"),
            FieldKind::Named => format!("Greek::{n}{{..}}"),
            FieldKind::Unnamed => format!("Greek::{n}(..)"),
        };
        arms.push_str(&format!("{pat} => f.write_str(\"{pat}\"), "));
    }
    assert_eq!(
        out,
        expected(
            "impl std::fmt::Debug for Greek",
            &format!("match self {{ {arms}}}")
        )
    );
    assert_eq!(out.matches(" => ").count(), names.len());
    assert!(!out.contains("_ =>"));
}

#[test]
fn lifetimes_consts_and_where_clause() {
    let d = TypeDecl {
        name: "View".to_string(),
        generics: vec![
            lifetime("'a", &[]),
            lifetime("'b", &["'a"]),
            ty("T", &["Clone", "Send"], None),
            GenericParam::Const {
                text: "const N: usize".to_string(),
            },
        ],
        where_predicates: vec!["T: Copy".to_string(), "'a: 'static".to_string()],
        shape: Shape::Struct(FieldKind::Named),
    };
    let out = derive_shallow_debug(&d);
    assert_eq!(
        out,
        expected(
            "impl<'a, 'b, T, const N: usize> std::fmt::Debug for View<'a, 'b, T, const N: usize> \
             where 'b: 'a, T: Clone + Send, T: Copy, 'a: 'static",
            "f.write_str(\"View{..}\")"
        )
    );
}

#[test]
fn unbounded_generics_give_empty_where_clause() {
    let d = TypeDecl {
        name: "Either".to_string(),
        generics: vec![ty("L", &[], None), ty("R", &[], None)],
        where_predicates: vec![],
        shape: Shape::Enum(vec![
            variant("Left", FieldKind::Unnamed),
            variant("Right", FieldKind::Unnamed),
        ]),
    };
    let out = derive_shallow_debug(&d);
    assert!(out.starts_with("impl<L, R> std::fmt::Debug for Either<L, R> where  { "));
}

#[test]
fn no_generics_keeps_where_predicates() {
    let d = TypeDecl {
        name: "Fixed".to_string(),
        generics: vec![],
        where_predicates: vec!["u8: Copy".to_string(), "String: Clone".to_string()],
        shape: Shape::Struct(FieldKind::Unit),
    };
    let out = derive_shallow_debug(&d);
    assert_eq!(
        out,
        expected(
            "impl std::fmt::Debug for Fixed where u8: Copy, String: Clone",
            "f.write_str(\"Fixed\")"
        )
    );
}
