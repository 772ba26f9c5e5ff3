//! Type and method descriptors of the Java Native Interface.
//!
//! A descriptor is the compact string by which the Java runtime names the type
//! of a field or the parameters and result of a method:
//!
//! ```text
//! <desc>        ::= 'Z'|'B'|'C'|'S'|'I'|'J'|'F'|'D'|'V' | 'L' <name> ';' | '[' <desc>
//! <method-desc> ::= '(' <desc>* ')' <desc>
//! ```
//!
//! The encoders here are exact: each returns the string that the spec function
//! of the same construct gives. Descriptors are write-only, there is no decoder.

use vstd::prelude::*;

verus! {

/// A Java type, as it stands in a field or method descriptor.
#[derive(Debug)]
pub enum Type<'a> {
    /// `boolean`
    Boolean,
    /// `byte`
    Byte,
    /// `char`
    Char,
    /// `short`
    Short,
    /// `int`
    Int,
    /// `long`
    Long,
    /// `float`
    Float,
    /// `double`
    Double,
    /// `void`
    Void,
    /// A class, named in the runtime's internal form (`java/lang/String`).
    /// The name is taken as it is: dots are not turned into slashes.
    Object(&'a str),
    /// An array of the given element type.
    Array(Box<Type<'a>>),
}

/// The mathematical value of a [`Type`]: the same shape, with each class name
/// as a sequence of characters.
pub enum JavaType {
    Boolean,
    Byte,
    Char,
    Short,
    Int,
    Long,
    Float,
    Double,
    Void,
    Object(Seq<char>),
    Array(Box<JavaType>),
}

/// The mathematical value of a type.
pub open spec fn java_type(t: Type<'_>) -> JavaType
    decreases t,
{
    match t {
        Type::Boolean => JavaType::Boolean,
        Type::Byte => JavaType::Byte,
        Type::Char => JavaType::Char,
        Type::Short => JavaType::Short,
        Type::Int => JavaType::Int,
        Type::Long => JavaType::Long,
        Type::Float => JavaType::Float,
        Type::Double => JavaType::Double,
        Type::Void => JavaType::Void,
        Type::Object(name) => JavaType::Object(name@),
        Type::Array(element) => JavaType::Array(Box::new(java_type(*element))),
    }
}

impl<'a> View for Type<'a> {
    type V = JavaType;

    open spec fn view(&self) -> JavaType {
        java_type(*self)
    }
}

/// The parameter types and the return type of a method.
#[derive(Debug)]
pub struct Signature<'a> {
    /// The parameter types, in declared order.
    pub arguments: Vec<Type<'a>>,
    /// The return type.
    pub return_type: Type<'a>,
}

/// The mathematical value of a [`Signature`].
pub struct MethodType {
    pub arguments: Seq<JavaType>,
    pub return_type: JavaType,
}

/// The mathematical values of a sequence of types, in the same order.
pub open spec fn type_views(types: Seq<Type<'_>>) -> Seq<JavaType> {
    Seq::new(types.len(), |i: int| types[i]@)
}

impl<'a> View for Signature<'a> {
    type V = MethodType;

    open spec fn view(&self) -> MethodType {
        MethodType { arguments: type_views(self.arguments@), return_type: self.return_type@ }
    }
}

/// The descriptor of a type.
pub open spec fn descriptor(t: JavaType) -> Seq<char>
    decreases t,
{
    match t {
        JavaType::Boolean => seq!['Z'],
        JavaType::Byte => seq!['B'],
        JavaType::Char => seq!['C'],
        JavaType::Short => seq!['S'],
        JavaType::Int => seq!['I'],
        JavaType::Long => seq!['J'],
        JavaType::Float => seq!['F'],
        JavaType::Double => seq!['D'],
        JavaType::Void => seq!['V'],
        JavaType::Object(name) => seq!['L'] + name + seq![';'],
        JavaType::Array(element) => seq!['['] + descriptor(*element),
    }
}

/// The descriptors of a sequence of types, one after the other.
pub open spec fn descriptors(types: Seq<JavaType>) -> Seq<char>
    decreases types.len(),
{
    if types.len() == 0 {
        Seq::empty()
    } else {
        descriptor(types[0]) + descriptors(types.drop_first())
    }
}

/// The descriptor of a method: the parameters in declared order between
/// parentheses, then the return type.
pub open spec fn method_descriptor(m: MethodType) -> Seq<char> {
    seq!['('] + descriptors(m.arguments) + seq![')'] + descriptor(m.return_type)
}

/// No class name inside `t` holds a `;`, the character that ends a class name
/// in a descriptor. Names in the runtime's internal form never hold one.
pub open spec fn self_delimiting(t: JavaType) -> bool
    decreases t,
{
    match t {
        JavaType::Object(name) => !name.contains(';'),
        JavaType::Array(element) => self_delimiting(*element),
        _ => true,
    }
}

impl MethodType {
    /// No class name inside a parameter type holds a `;`: each parameter
    /// stands in the descriptor within its own bounds.
    pub open spec fn framed(self) -> bool {
        forall|i: int|
            0 <= i < self.arguments.len() ==> self_delimiting(#[trigger] self.arguments[i])
    }
}

/// Appending one type to a sequence appends its descriptor.
pub proof fn lemma_descriptors_push(types: Seq<JavaType>, t: JavaType)
    ensures
        descriptors(types.push(t)) == descriptors(types) + descriptor(t),
    decreases types.len(),
{
    if types.len() == 0 {
        assert(types.push(t).drop_first() =~= Seq::<JavaType>::empty());
        assert(descriptors(types.push(t).drop_first()) =~= Seq::<char>::empty());
        assert(descriptors(types.push(t)) =~= descriptor(t));
    } else {
        lemma_descriptors_push(types.drop_first(), t);
        assert(types.push(t).drop_first() =~= types.drop_first().push(t));
        assert(descriptors(types.push(t)) =~= descriptors(types) + descriptor(t));
    }
}

/// A descriptor is never empty, and it begins with one of the eleven tag
/// characters, none of which is a parenthesis.
pub proof fn lemma_descriptor_head(t: JavaType)
    ensures
        descriptor(t).len() >= 1,
        descriptor(t)[0] != ')',
        descriptor(t)[0] != '(',
{
}

/// Two types are equal if and only if their descriptors are equal: the
/// encoding of a single type is injective, whatever the class names hold.
pub proof fn lemma_descriptor_injective(a: JavaType, b: JavaType)
    ensures
        descriptor(a) == descriptor(b) <==> a == b,
    decreases a,
{
    if descriptor(a) == descriptor(b) {
        let da = descriptor(a);
        let db = descriptor(b);
        assert(da[0] == db[0]);
        match a {
            JavaType::Object(name_a) => {
                let name_b = b->Object_0;
                assert(b is Object);
                assert(da.len() == name_a.len() + 2);
                assert(db.len() == name_b.len() + 2);
                assert forall|i: int| 0 <= i < name_a.len() implies name_a[i] == name_b[i] by {
                    assert(da[i + 1] == name_a[i]);
                    assert(db[i + 1] == name_b[i]);
                }
                assert(name_a =~= name_b);
            },
            JavaType::Array(element_a) => {
                assert(b is Array);
                let element_b = b->Array_0;
                assert(descriptor(*element_a) =~= da.subrange(1, da.len() as int));
                assert(descriptor(*element_b) =~= db.subrange(1, db.len() as int));
                lemma_descriptor_injective(*element_a, *element_b);
            },
            _ => {},
        }
    }
}

/// A descriptor of a self-delimiting type is never a proper prefix of
/// another: where two of them, each followed by some further text, give the
/// same text, the types are equal and so is what follows.
pub proof fn lemma_descriptor_prefix_free(a: JavaType, b: JavaType, x: Seq<char>, y: Seq<char>)
    requires
        self_delimiting(a),
        self_delimiting(b),
        descriptor(a) + x == descriptor(b) + y,
    ensures
        a == b,
        x == y,
    decreases a,
{
    let da = descriptor(a);
    let db = descriptor(b);
    let left = da + x;
    let right = db + y;
    assert(left[0] == da[0]);
    assert(right[0] == db[0]);
    match a {
        JavaType::Object(name_a) => {
            assert(b is Object);
            let name_b = b->Object_0;
            if name_a.len() < name_b.len() {
                assert(left[name_a.len() as int + 1] == ';');
                assert(right[name_a.len() as int + 1] == name_b[name_a.len() as int]);
                assert(name_b.contains(';'));
            }
            if name_b.len() < name_a.len() {
                assert(right[name_b.len() as int + 1] == ';');
                assert(left[name_b.len() as int + 1] == name_a[name_b.len() as int]);
                assert(name_a.contains(';'));
            }
            assert forall|i: int| 0 <= i < name_a.len() implies name_a[i] == name_b[i] by {
                assert(left[i + 1] == name_a[i]);
                assert(right[i + 1] == name_b[i]);
            }
            assert(name_a =~= name_b);
            assert(x =~= left.subrange(da.len() as int, left.len() as int));
            assert(y =~= right.subrange(db.len() as int, right.len() as int));
        },
        JavaType::Array(element_a) => {
            assert(b is Array);
            let element_b = b->Array_0;
            assert(descriptor(*element_a) + x =~= left.subrange(1, left.len() as int));
            assert(descriptor(*element_b) + y =~= right.subrange(1, right.len() as int));
            lemma_descriptor_prefix_free(*element_a, *element_b, x, y);
        },
        _ => {
            assert(a == b);
            assert(x =~= left.subrange(1, left.len() as int));
            assert(y =~= right.subrange(1, right.len() as int));
        },
    }
}

/// The prefix property for parameter lists: where two lists of
/// self-delimiting types, each closed by `)` and followed by some further
/// text, give the same text, the lists are equal and so is what follows.
pub proof fn lemma_descriptors_prefix_free(
    a: Seq<JavaType>,
    b: Seq<JavaType>,
    x: Seq<char>,
    y: Seq<char>,
)
    requires
        forall|i: int| 0 <= i < a.len() ==> self_delimiting(#[trigger] a[i]),
        forall|i: int| 0 <= i < b.len() ==> self_delimiting(#[trigger] b[i]),
        descriptors(a) + seq![')'] + x == descriptors(b) + seq![')'] + y,
    ensures
        a == b,
        x == y,
    decreases a.len(),
{
    let left = descriptors(a) + seq![')'] + x;
    let right = descriptors(b) + seq![')'] + y;
    if a.len() == 0 {
        assert(left[0] == ')');
        if b.len() > 0 {
            lemma_descriptor_head(b[0]);
            assert(right[0] == descriptor(b[0])[0]);
        }
        assert(a =~= b);
        assert(x =~= left.subrange(1, left.len() as int));
        assert(y =~= right.subrange(1, right.len() as int));
    } else {
        lemma_descriptor_head(a[0]);
        assert(left[0] == descriptor(a[0])[0]);
        if b.len() == 0 {
            assert(right[0] == ')');
        }
        let rest_a = descriptors(a.drop_first()) + seq![')'] + x;
        let rest_b = descriptors(b.drop_first()) + seq![')'] + y;
        assert(left =~= descriptor(a[0]) + rest_a);
        assert(right =~= descriptor(b[0]) + rest_b);
        lemma_descriptor_prefix_free(a[0], b[0], rest_a, rest_b);
        assert forall|i: int| 0 <= i < a.drop_first().len() implies self_delimiting(
            #[trigger] a.drop_first()[i],
        ) by {
            assert(a.drop_first()[i] == a[i + 1]);
        }
        assert forall|i: int| 0 <= i < b.drop_first().len() implies self_delimiting(
            #[trigger] b.drop_first()[i],
        ) by {
            assert(b.drop_first()[i] == b[i + 1]);
        }
        lemma_descriptors_prefix_free(a.drop_first(), b.drop_first(), x, y);
        assert(a =~= seq![a[0]] + a.drop_first());
        assert(b =~= seq![b[0]] + b.drop_first());
    }
}

/// Distinct signatures never share a method descriptor, as long as they are
/// framed. (With a `;` inside a class name the parameter lists `[La;Lb]` and
/// `[La, Lb]` give the same text.) The return type may be any type.
pub proof fn lemma_method_descriptor_injective(a: MethodType, b: MethodType)
    requires
        a.framed(),
        b.framed(),
    ensures
        method_descriptor(a) == method_descriptor(b) <==> a == b,
{
    if method_descriptor(a) == method_descriptor(b) {
        let da = method_descriptor(a);
        let db = method_descriptor(b);
        let inner_a = descriptors(a.arguments) + seq![')'] + descriptor(a.return_type);
        let inner_b = descriptors(b.arguments) + seq![')'] + descriptor(b.return_type);
        assert(inner_a =~= da.subrange(1, da.len() as int));
        assert(inner_b =~= db.subrange(1, db.len() as int));
        lemma_descriptors_prefix_free(
            a.arguments,
            b.arguments,
            descriptor(a.return_type),
            descriptor(b.return_type),
        );
        lemma_descriptor_injective(a.return_type, b.return_type);
    }
}

/// Whether the character occurs in the text.
fn contains_char(text: &str, c: char) -> (found: bool)
    ensures
        found == text@.contains(c),
{
    let mut found = false;
    for x in it: text.chars()
        invariant
            it.seq() == text@,
            found <==> exists|j: int| 0 <= j < it.index() && text@[j] == c,
    {
        if x == c {
            found = true;
        }
    }
    found
}

impl<'a> Type<'a> {
    /// Whether no class name inside this type holds a `;`.
    pub fn is_self_delimiting(&self) -> (is: bool)
        ensures
            is == self_delimiting(self@),
        decreases self,
    {
        match self {
            Type::Object(name) => !contains_char(name, ';'),
            Type::Array(element) => element.is_self_delimiting(),
            _ => true,
        }
    }

    /// The descriptor of this type.
    pub fn to_string(&self) -> (text: String)
        ensures
            text@ == descriptor(self@),
        decreases self,
    {
        proof {
            reveal_strlit("Z");
            reveal_strlit("B");
            reveal_strlit("C");
            reveal_strlit("S");
            reveal_strlit("I");
            reveal_strlit("J");
            reveal_strlit("F");
            reveal_strlit("D");
            reveal_strlit("V");
            reveal_strlit("L");
            reveal_strlit(";");
            reveal_strlit("[");
        }
        match self {
            Type::Boolean => String::from_str("Z"),
            Type::Byte => String::from_str("B"),
            Type::Char => String::from_str("C"),
            Type::Short => String::from_str("S"),
            Type::Int => String::from_str("I"),
            Type::Long => String::from_str("J"),
            Type::Float => String::from_str("F"),
            Type::Double => String::from_str("D"),
            Type::Void => String::from_str("V"),
            Type::Object(name) => {
                let mut text = String::from_str("L");
                text.append(name);
                text.append(";");
                text
            },
            Type::Array(element) => {
                let mut text = String::from_str("[");
                let inner = element.to_string();
                text.append(inner.as_str());
                text
            },
        }
    }
}

impl<'a> Clone for Type<'a> {
    fn clone(&self) -> (copy: Self)
        ensures
            copy == *self,
        decreases self,
    {
        match self {
            Type::Boolean => Type::Boolean,
            Type::Byte => Type::Byte,
            Type::Char => Type::Char,
            Type::Short => Type::Short,
            Type::Int => Type::Int,
            Type::Long => Type::Long,
            Type::Float => Type::Float,
            Type::Double => Type::Double,
            Type::Void => Type::Void,
            Type::Object(name) => Type::Object(name),
            Type::Array(element) => Type::Array(Box::new((&**element).clone())),
        }
    }
}

impl<'a> Clone for Signature<'a> {
    fn clone(&self) -> (copy: Self)
        ensures
            copy.arguments@ == self.arguments@,
            copy.return_type == self.return_type,
    {
        let arguments = self.arguments.clone();
        assert(arguments@ =~= self.arguments@);
        Signature { arguments, return_type: self.return_type.clone() }
    }
}

impl<'a> Signature<'a> {
    /// Whether no class name inside a parameter type holds a `;`.
    pub fn is_framed(&self) -> (is: bool)
        ensures
            is == self@.framed(),
    {
        let mut i: usize = 0;
        while i < self.arguments.len()
            invariant
                i <= self.arguments.len(),
                forall|j: int| 0 <= j < i ==> self_delimiting(#[trigger] self@.arguments[j]),
            decreases self.arguments.len() - i,
        {
            if !self.arguments[i].is_self_delimiting() {
                assert(!self_delimiting(self@.arguments[i as int]));
                return false;
            }
            i += 1;
        }
        true
    }

    /// A signature with the given parameter types, in declared order, and the
    /// given return type.
    pub fn new(arguments: Vec<Type<'a>>, return_type: Type<'a>) -> (signature: Signature<'a>)
        ensures
            signature.arguments == arguments,
            signature.return_type == return_type,
    {
        Signature { arguments, return_type }
    }
}

impl<'a> vstd::std_specs::convert::FromSpecImpl<Type<'a>> for String {
    open spec fn obeys_from_spec() -> bool {
        false
    }

    open spec fn from_spec(v: Type<'a>) -> String {
        arbitrary()
    }
}

impl<'a> vstd::std_specs::convert::FromSpecImpl<Signature<'a>> for String {
    open spec fn obeys_from_spec() -> bool {
        false
    }

    open spec fn from_spec(v: Signature<'a>) -> String {
        arbitrary()
    }
}

impl<'a> From<Type<'a>> for String {
    /// The descriptor of the type.
    fn from(value: Type<'a>) -> (text: String)
        ensures
            text@ == descriptor(value@),
    {
        value.to_string()
    }
}

impl<'a> From<Signature<'a>> for String {
    /// The method descriptor of the signature.
    fn from(value: Signature<'a>) -> (text: String)
        ensures
            text@ == method_descriptor(value@),
    {
        proof {
            reveal_strlit("(");
            reveal_strlit(")");
        }
        let mut text = String::from_str("(");
        let mut i: usize = 0;
        while i < value.arguments.len()
            invariant
                i <= value.arguments.len(),
                text@ == seq!['('] + descriptors(value@.arguments.take(i as int)),
            decreases value.arguments.len() - i,
        {
            let piece = value.arguments[i].to_string();
            proof {
                lemma_descriptors_push(value@.arguments.take(i as int), value.arguments[i as int]@);
                assert(value@.arguments.take(i as int).push(value.arguments[i as int]@)
                    =~= value@.arguments.take(i as int + 1));
            }
            text.append(piece.as_str());
            i += 1;
        }
        assert(value@.arguments.take(i as int) =~= value@.arguments);
        text.append(")");
        let result = value.return_type.to_string();
        text.append(result.as_str());
        text
    }
}

} // verus!
