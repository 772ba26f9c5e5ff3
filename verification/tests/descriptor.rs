use jnat::{Signature, Type};

#[test]
fn signature_from() {
    let signature: String = Signature::new(vec![], Type::Void).into();
    assert_eq!(signature, "()V");

    let signature: String = Signature::new(vec![Type::Boolean], Type::Boolean).into();
    assert_eq!(signature, "(Z)Z");

    let signature: String = Signature::new(
        vec![
            Type::Array(Box::new(Type::Object("java/lang/String"))),
            Type::Array(Box::new(Type::Char)),
        ],
        Type::Char,
    )
    .into();
    assert_eq!(signature, "([Ljava/lang/String;[C)C");
}

#[test]
fn primitive_types_have_one_letter() {
    assert_eq!(Type::Boolean.to_string(), "Z");
    assert_eq!(Type::Byte.to_string(), "B");
    assert_eq!(Type::Char.to_string(), "C");
    assert_eq!(Type::Short.to_string(), "S");
    assert_eq!(Type::Int.to_string(), "I");
    assert_eq!(Type::Long.to_string(), "J");
    assert_eq!(Type::Float.to_string(), "F");
    assert_eq!(Type::Double.to_string(), "D");
    assert_eq!(Type::Void.to_string(), "V");
}

#[test]
fn object_type_is_framed() {
    assert_eq!(Type::Object("java/lang/String").to_string(), "Ljava/lang/String;");
    assert_eq!(Type::Object("").to_string(), "L;");
}

#[test]
fn class_name_is_taken_as_it_is() {
    assert_eq!(Type::Object("java.lang.String").to_string(), "Ljava.lang.String;");
}

#[test]
fn nested_arrays() {
    let nested = Type::Array(Box::new(Type::Array(Box::new(Type::Object("java/lang/String")))));
    assert_eq!(nested.to_string(), "[[Ljava/lang/String;");
    let deep = Type::Array(Box::new(Type::Array(Box::new(Type::Array(Box::new(Type::Int))))));
    assert_eq!(deep.to_string(), "[[[I");
}

#[test]
fn string_from_type() {
    let text: String = Type::Array(Box::new(Type::Long)).into();
    assert_eq!(text, "[J");
    assert_eq!(String::from(Type::Object("Foo")), "LFoo;");
}

#[test]
fn encoding_is_deterministic() {
    let a = Type::Array(Box::new(Type::Object("java/util/List")));
    let b = Type::Array(Box::new(Type::Object("java/util/List")));
    assert_eq!(a.to_string(), b.to_string());
    assert_eq!(a.to_string(), a.to_string());
}

#[test]
fn distinct_types_have_distinct_descriptors() {
    let types = vec![
        Type::Boolean,
        Type::Byte,
        Type::Char,
        Type::Short,
        Type::Int,
        Type::Long,
        Type::Float,
        Type::Double,
        Type::Void,
        Type::Object("I"),
        Type::Object("java/lang/String"),
        Type::Object("java/lang/Object"),
        Type::Array(Box::new(Type::Int)),
        Type::Array(Box::new(Type::Object("I"))),
        Type::Array(Box::new(Type::Array(Box::new(Type::Int)))),
        Type::Array(Box::new(Type::Array(Box::new(Type::Object("java/lang/String"))))),
    ];
    let texts: Vec<String> = types.iter().map(|t| t.to_string()).collect();
    for i in 0..texts.len() {
        for j in 0..texts.len() {
            if i != j {
                assert_ne!(texts[i], texts[j]);
            }
        }
    }
}

#[test]
fn parameter_order_is_kept() {
    let forward: String = Signature::new(vec![Type::Int, Type::Long], Type::Void).into();
    let backward: String = Signature::new(vec![Type::Long, Type::Int], Type::Void).into();
    assert_eq!(forward, "(IJ)V");
    assert_eq!(backward, "(JI)V");
}

#[test]
fn callback_signature() {
    let signature: String =
        Signature::new(vec![Type::Int, Type::Object("java/lang/String")], Type::Void).into();
    assert_eq!(signature, "(ILjava/lang/String;)V");
}

#[test]
fn semicolon_in_a_name_makes_signatures_collide() {
    let one: String = Signature::new(vec![Type::Object("a;Lb")], Type::Void).into();
    let two: String =
        Signature::new(vec![Type::Object("a"), Type::Object("b")], Type::Void).into();
    assert_eq!(one, "(La;Lb;)V");
    assert_eq!(one, two);
}

#[test]
fn signature_fields_are_those_given() {
    let signature = Signature::new(vec![Type::Int, Type::Char], Type::Boolean);
    assert_eq!(signature.arguments.len(), 2);
    assert_eq!(signature.arguments[0].to_string(), "I");
    assert_eq!(signature.arguments[1].to_string(), "C");
    assert_eq!(signature.return_type.to_string(), "Z");
}

#[test]
fn clones_encode_alike() {
    let t = Type::Array(Box::new(Type::Object("java/lang/String")));
    assert_eq!(t.clone().to_string(), "[Ljava/lang/String;");
    let signature = Signature::new(vec![t, Type::Int], Type::Void);
    let copy: String = signature.clone().into();
    let direct: String = signature.into();
    assert_eq!(copy, "([Ljava/lang/String;I)V");
    assert_eq!(copy, direct);
}

#[test]
fn self_delimiting_names_hold_no_semicolon() {
    let open = format!("a{}b", '\u{28}');
    assert!(Type::Int.is_self_delimiting());
    assert!(Type::Void.is_self_delimiting());
    assert!(Type::Object("java/lang/String").is_self_delimiting());
    assert!(Type::Object("").is_self_delimiting());
    assert!(Type::Object(&open).is_self_delimiting());
    assert!(!Type::Object("a;b").is_self_delimiting());
    assert!(!Type::Object(";").is_self_delimiting());
    assert!(!Type::Array(Box::new(Type::Array(Box::new(Type::Object("a;"))))).is_self_delimiting());
    assert!(Type::Array(Box::new(Type::Object("a"))).is_self_delimiting());
}

#[test]
fn framed_signatures() {
    let nested = format!("a;{}I{}VLb", '\u{28}', '\u{29}');
    let open = format!("a{}b", '\u{28}');
    assert!(Signature::new(vec![], Type::Void).is_framed());
    assert!(Signature::new(vec![Type::Int, Type::Object("java/lang/String")], Type::Void).is_framed());
    assert!(Signature::new(vec![Type::Int, Type::Object(&open)], Type::Void).is_framed());
    assert!(!Signature::new(vec![Type::Int, Type::Object(&nested)], Type::Void).is_framed());
    assert!(!Signature::new(vec![Type::Object("a;Lb"), Type::Int], Type::Void).is_framed());
}

#[test]
fn the_return_type_does_not_count_for_the_frame() {
    assert!(Signature::new(vec![Type::Int], Type::Object("a;b")).is_framed());
}
