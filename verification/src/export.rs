//! The export of native functions under the names that the runtime looks up.
//!
//! A native method `m` of the class `a.b.C` is bound to the symbol
//! `Java_a_b_C_m`. To export a function under that symbol, a second function
//! of that name is generated, which takes the same parameters, in the same
//! order and of the same types, and hands them on to the first. Here stands
//! what that second function looks like, as a [`Forwarder`]; to turn it into
//! source text is left to the code generator.
//!
//! Overloaded native methods are not told apart: the symbol does not hold the
//! parameter types, so two native methods of one name in one class collide.

use vstd::prelude::*;

verus! {

/// The calling convention of an exported function: the one of the platform's
/// system libraries.
pub const CALLING_CONVENTION: &'static str = "system";

/// A parameter of the generated function.
pub struct Parameter<T> {
    /// The name of the parameter.
    pub name: String,
    /// The type of the parameter.
    pub ty: T,
}

/// The function that is generated to export a native function. `T` is
/// whatever stands for a type in the code generator.
pub struct Forwarder<T> {
    /// The symbol under which the function is exported.
    pub symbol: String,
    /// The calling convention of the function.
    pub convention: &'static str,
    /// The parameters, in order.
    pub parameters: Vec<Parameter<T>>,
    /// The return type.
    pub return_type: T,
    /// The name of the function that the parameters are handed on to.
    pub target: String,
}

/// The texts of a sequence of string slices.
pub open spec fn texts(pieces: Seq<&str>) -> Seq<Seq<char>> {
    Seq::new(pieces.len(), |i: int| pieces[i]@)
}

/// The segments one after the other, with a `_` between each two.
pub open spec fn joined(segments: Seq<Seq<char>>) -> Seq<char>
    decreases segments.len(),
{
    if segments.len() == 0 {
        Seq::empty()
    } else if segments.len() == 1 {
        segments[0]
    } else {
        joined(segments.drop_last()) + seq!['_'] + segments.last()
    }
}

/// The symbol of the native method `method` of the class at `class_path`:
/// `Java_`, the segments of the path joined by `_`, another `_`, and the
/// name of the method.
pub open spec fn symbol_of(class_path: Seq<Seq<char>>, method: Seq<char>) -> Seq<char> {
    seq!['J', 'a', 'v', 'a', '_'] + joined(class_path) + seq!['_'] + method
}

/// The decimal digit for a number below ten.
pub open spec fn digit(d: nat) -> char
    recommends
        d < 10,
{
    if d == 0 {
        '0'
    } else if d == 1 {
        '1'
    } else if d == 2 {
        '2'
    } else if d == 3 {
        '3'
    } else if d == 4 {
        '4'
    } else if d == 5 {
        '5'
    } else if d == 6 {
        '6'
    } else if d == 7 {
        '7'
    } else if d == 8 {
        '8'
    } else {
        '9'
    }
}

/// A number in decimal, without leading zeros.
pub open spec fn decimal(n: nat) -> Seq<char>
    decreases n,
{
    if n < 10 {
        seq![digit(n)]
    } else {
        decimal(n / 10) + seq![digit(n % 10)]
    }
}

/// The name of the parameter at the given position, counted from zero:
/// `arg0`, `arg1`, and so on.
pub open spec fn parameter_name(position: nat) -> Seq<char> {
    seq!['a', 'r', 'g'] + decimal(position)
}

/// The symbol under which the native method `method` of the class at
/// `class_path` is exported.
pub fn export_symbol(class_path: &[&str], method: &str) -> (symbol: String)
    ensures
        symbol@ == symbol_of(texts(class_path@), method@),
{
    proof {
        reveal_strlit("Java_");
        reveal_strlit("_");
    }
    let mut symbol = String::from_str("Java_");
    let mut i: usize = 0;
    while i < class_path.len()
        invariant
            i <= class_path@.len(),
            symbol@ == seq!['J', 'a', 'v', 'a', '_'] + joined(texts(class_path@).take(i as int)),
        decreases class_path@.len() - i,
    {
        let ghost before = texts(class_path@).take(i as int);
        let ghost after = texts(class_path@).take(i as int + 1);
        let ghost segment = class_path@[i as int]@;
        proof {
            reveal_strlit("_");
            assert(after.drop_last() =~= before);
            assert(after.last() == segment);
            if i == 0 {
                assert(joined(before) =~= Seq::<char>::empty());
                assert(joined(after) =~= segment);
            } else {
                assert(joined(after) =~= joined(before) + seq!['_'] + segment);
            }
        }
        if i > 0 {
            symbol.append("_");
        }
        symbol.append(class_path[i]);
        assert(symbol@ =~= seq!['J', 'a', 'v', 'a', '_'] + joined(after));
        i += 1;
    }
    assert(texts(class_path@).take(i as int) =~= texts(class_path@));
    symbol.append("_");
    symbol.append(method);
    symbol
}

/// The text of a decimal digit.
fn digit_text(d: usize) -> (text: &'static str)
    requires
        d < 10,
    ensures
        text@ == seq![digit(d as nat)],
{
    proof {
        reveal_strlit("0");
        reveal_strlit("1");
        reveal_strlit("2");
        reveal_strlit("3");
        reveal_strlit("4");
        reveal_strlit("5");
        reveal_strlit("6");
        reveal_strlit("7");
        reveal_strlit("8");
        reveal_strlit("9");
    }
    if d == 0 {
        "0"
    } else if d == 1 {
        "1"
    } else if d == 2 {
        "2"
    } else if d == 3 {
        "3"
    } else if d == 4 {
        "4"
    } else if d == 5 {
        "5"
    } else if d == 6 {
        "6"
    } else if d == 7 {
        "7"
    } else if d == 8 {
        "8"
    } else {
        "9"
    }
}

/// Appends a number in decimal to the text.
fn append_decimal(text: &mut String, n: usize)
    ensures
        final(text)@ == old(text)@ + decimal(n as nat),
    decreases n,
{
    if n >= 10 {
        append_decimal(text, n / 10);
    }
    text.append(digit_text(n % 10));
}

/// The name of the parameter at the given position, counted from zero.
pub fn name_parameter(position: usize) -> (name: String)
    ensures
        name@ == parameter_name(position as nat),
{
    proof {
        reveal_strlit("arg");
    }
    let mut name = String::from_str("arg");
    append_decimal(&mut name, position);
    name
}

/// The function that exports the native function `method` of the class at
/// `class_path`, which takes parameters of the given types and returns the
/// given type.
///
/// The generated function is named by [`export_symbol`] and has the calling
/// convention [`CALLING_CONVENTION`]. It has one parameter for each given
/// type, in the given order and of that very type, named `arg0`, `arg1`, and
/// so on; it returns the given type; and it hands its parameters on to
/// `method`.
pub fn plan_export<T>(
    class_path: &[&str],
    method: &str,
    parameter_types: Vec<T>,
    return_type: T,
) -> (forwarder: Forwarder<T>)
    ensures
        forwarder.symbol@ == symbol_of(texts(class_path@), method@),
        forwarder.convention == CALLING_CONVENTION,
        forwarder.target@ == method@,
        forwarder.return_type == return_type,
        forwarder.parameters@.len() == parameter_types@.len(),
        forall|i: int|
            0 <= i < parameter_types@.len() ==> {
                &&& (#[trigger] forwarder.parameters@[i]).ty == parameter_types@[i]
                &&& forwarder.parameters@[i].name@ == parameter_name(i as nat)
            },
{
    let ghost types = parameter_types@;
    let mut remaining = parameter_types;
    let mut reversed: Vec<T> = Vec::new();
    while remaining.len() > 0
        invariant
            remaining@.len() + reversed@.len() == types.len(),
            forall|i: int| 0 <= i < remaining@.len() ==> remaining@[i] == types[i],
            forall|i: int|
                0 <= i < reversed@.len() ==> reversed@[i] == types[types.len() - 1 - i],
        decreases remaining@.len(),
    {
        match remaining.pop() {
            Some(ty) => reversed.push(ty),
            None => {},
        }
    }
    let mut parameters: Vec<Parameter<T>> = Vec::new();
    while reversed.len() > 0
        invariant
            parameters@.len() + reversed@.len() == types.len(),
            forall|i: int|
                0 <= i < reversed@.len() ==> reversed@[i] == types[types.len() - 1 - i],
            forall|i: int|
                0 <= i < parameters@.len() ==> {
                    &&& (#[trigger] parameters@[i]).ty == types[i]
                    &&& parameters@[i].name@ == parameter_name(i as nat)
                },
        decreases reversed@.len(),
    {
        let name = name_parameter(parameters.len());
        match reversed.pop() {
            Some(ty) => parameters.push(Parameter { name, ty }),
            None => {},
        }
    }
    Forwarder {
        symbol: export_symbol(class_path, method),
        convention: CALLING_CONVENTION,
        parameters,
        return_type,
        target: String::from_str(method),
    }
}

} // verus!
