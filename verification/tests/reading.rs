use jnat::{Signature, Type};
use jni::signature::{JavaType, Primitive, ReturnType, TypeSignature};
use std::str::FromStr;

fn sample() -> Vec<Type<'static>> {
    vec![
        Type::Boolean,
        Type::Byte,
        Type::Char,
        Type::Short,
        Type::Int,
        Type::Long,
        Type::Float,
        Type::Double,
        Type::Object("java/lang/String"),
        Type::Object("Foo$Bar"),
        Type::Array(Box::new(Type::Int)),
        Type::Array(Box::new(Type::Object("java/lang/Object"))),
        Type::Array(Box::new(Type::Array(Box::new(Type::Char)))),
    ]
}

#[test]
fn the_jni_layer_reads_a_descriptor_as_it_was_written() {
    let text: String = Signature::new(
        vec![
            Type::Int,
            Type::Object("java/lang/String"),
            Type::Array(Box::new(Type::Long)),
        ],
        Type::Void,
    )
    .into();
    let read = TypeSignature::from_str(&text).unwrap();
    assert_eq!(read.args.len(), 3);
    assert_eq!(read.args[0], JavaType::Primitive(Primitive::Int));
    assert_eq!(read.args[1], JavaType::Object("java/lang/String".to_string()));
    assert_eq!(
        read.args[2],
        JavaType::Array(Box::new(JavaType::Primitive(Primitive::Long)))
    );
    assert_eq!(read.ret, ReturnType::Primitive(Primitive::Void));
}

#[test]
fn the_jni_layer_reads_each_parameter_of_a_framed_signature() {
    let signature = Signature::new(sample(), Type::Object("java/lang/String"));
    assert!(signature.is_framed());
    let count = signature.arguments.len();
    let text: String = signature.into();
    let read = TypeSignature::from_str(&text).unwrap();
    assert_eq!(read.args.len(), count);
    assert!(read.args.iter().all(|a| !matches!(a, JavaType::Method(_))));
    assert_eq!(read.ret, ReturnType::Object);
}

#[test]
fn the_jni_layer_reads_what_it_reads_back_to_the_same_text() {
    for t in sample() {
        let text = t.to_string();
        let read = JavaType::from_str(&text).unwrap();
        assert!(!matches!(read, JavaType::Method(_)));
        assert_eq!(format!("{}", read), text);
    }
}

#[test]
fn the_jni_layer_reads_a_method_type_after_a_semicolon_inside_a_name() {
    let name = format!("a;{}I{}VLb", '\u{28}', '\u{29}');
    let signature = Signature::new(vec![Type::Object(&name)], Type::Void);
    assert!(!signature.is_framed());
    let text: String = signature.into();
    let read = TypeSignature::from_str(&text).unwrap();
    assert_eq!(read.args.len(), 3);
    assert!(matches!(read.args[1], JavaType::Method(_)));
}

#[test]
fn the_jni_layer_keeps_a_parenthesis_inside_a_name() {
    let names = [
        format!("a{}b", '\u{28}'),
        format!("a{}b", '\u{29}'),
        format!("{}I{}V", '\u{28}', '\u{29}'),
        format!("{}{}", '\u{28}', '\u{28}'),
    ];
    for name in names.iter() {
        let signature = Signature::new(
            vec![
                Type::Object(name),
                Type::Array(Box::new(Type::Object(name))),
                Type::Int,
            ],
            Type::Object(name),
        );
        assert!(signature.is_framed());
        let text: String = signature.into();
        let read = TypeSignature::from_str(&text).unwrap();
        assert_eq!(read.args.len(), 3);
        assert_eq!(read.args[0], JavaType::Object(name.clone()));
        assert_eq!(
            read.args[1],
            JavaType::Array(Box::new(JavaType::Object(name.clone())))
        );
        assert_eq!(read.args[2], JavaType::Primitive(Primitive::Int));
        assert!(read.args.iter().all(|a| !matches!(a, JavaType::Method(_))));
    }
}

#[test]
fn the_jni_layer_stops_at_an_empty_name() {
    let signature = Signature::new(vec![Type::Int, Type::Object("")], Type::Void);
    assert!(signature.is_framed());
    let text: String = signature.into();
    assert!(TypeSignature::from_str(&text).is_err());
    let in_array = Signature::new(vec![Type::Array(Box::new(Type::Object("")))], Type::Void);
    let text: String = in_array.into();
    assert!(TypeSignature::from_str(&text).is_err());
}

#[test]
fn the_jni_layer_reads_no_further_than_the_return_type() {
    let name = format!("a;{}I{}V", '\u{28}', '\u{29}');
    let signature = Signature::new(vec![Type::Int], Type::Object(&name));
    assert!(signature.is_framed());
    let text: String = signature.into();
    let read = TypeSignature::from_str(&text).unwrap();
    assert_eq!(read.args.len(), 1);
    assert_eq!(read.ret, ReturnType::Object);
}

#[test]
fn the_jni_layer_reads_the_kind_of_a_field_off_its_descriptor() {
    let primitives = [
        (Type::Boolean, Primitive::Boolean),
        (Type::Byte, Primitive::Byte),
        (Type::Char, Primitive::Char),
        (Type::Short, Primitive::Short),
        (Type::Int, Primitive::Int),
        (Type::Long, Primitive::Long),
        (Type::Float, Primitive::Float),
        (Type::Double, Primitive::Double),
        (Type::Void, Primitive::Void),
    ];
    for (t, kind) in primitives {
        let text = t.to_string();
        assert_eq!(ReturnType::from_str(&text).unwrap(), ReturnType::Primitive(kind));
        assert_eq!(JavaType::from_str(&text).unwrap(), JavaType::Primitive(kind));
    }
    let class = Type::Object("java/lang/String").to_string();
    assert_eq!(ReturnType::from_str(&class).unwrap(), ReturnType::Object);
    assert!(matches!(JavaType::from_str(&class).unwrap(), JavaType::Object(_)));
    let array = Type::Array(Box::new(Type::Int)).to_string();
    assert_eq!(ReturnType::from_str(&array).unwrap(), ReturnType::Array);
    assert!(matches!(JavaType::from_str(&array).unwrap(), JavaType::Array(_)));
}

fn names_without_semicolon() -> Vec<String> {
    let letters = ['\u{28}', '\u{29}', 'L', '[', 'V', 'a'];
    let mut names: Vec<String> = Vec::new();
    for a in letters {
        names.push(format!("{}", a));
        for b in letters {
            names.push(format!("{}{}", a, b));
            for c in letters {
                names.push(format!("{}{}{}", a, b, c));
            }
        }
    }
    names
}

#[test]
fn the_jni_layer_reads_every_framed_descriptor_as_it_was_written() {
    let names = names_without_semicolon();
    assert_eq!(names.len(), 6 + 36 + 216);
    for name in names.iter() {
        let signature = Signature::new(
            vec![
                Type::Object(name),
                Type::Int,
                Type::Array(Box::new(Type::Array(Box::new(Type::Object(name))))),
                Type::Object(name),
            ],
            Type::Array(Box::new(Type::Object(name))),
        );
        assert!(signature.is_framed());
        let text: String = signature.into();
        let read = TypeSignature::from_str(&text).unwrap();
        assert_eq!(read.args.len(), 4);
        assert_eq!(read.args[0], JavaType::Object(name.clone()));
        assert_eq!(read.args[1], JavaType::Primitive(Primitive::Int));
        assert_eq!(
            read.args[2],
            JavaType::Array(Box::new(JavaType::Array(Box::new(JavaType::Object(
                name.clone()
            )))))
        );
        assert_eq!(read.args[3], JavaType::Object(name.clone()));
        assert_eq!(read.ret, ReturnType::Array);
    }
}
