use vstd::prelude::*;
use vstd::string::*;

use crate::attribute::Attribute;

verus! {

/// The namespace that a command argument naming an attribute is read in
/// when it names none.
pub const DEFAULT_NAMESPACE: &'static str = "minecraft:";

/// The byte that separates a namespace from a name.
pub const NAMESPACE_SEPARATOR: u8 = 58;

/// The full name an attribute argument stands for: itself where it holds a
/// namespace separator, else the name in the default namespace.
pub open spec fn qualified_name(arg: &str) -> Seq<char> {
    if arg.spec_bytes().contains(NAMESPACE_SEPARATOR) {
        arg@
    } else {
        DEFAULT_NAMESPACE@ + arg@
    }
}

/// Reads the attribute argument of a command.
#[derive(Clone, Copy, Debug, PartialEq, Eq, Structural)]
pub struct AttributeArgumentConsumer;

impl AttributeArgumentConsumer {
    /// The full name of the attribute that `arg` names and the attribute,
    /// looked up by that name in `names`; `None` where no attribute has it.
    pub fn consume(&self, arg: &str, names: &Vec<(String, Attribute)>) -> (r: Option<
        (String, Attribute),
    >)
        ensures
            r is Some <==> exists|i: int|
                0 <= i < names@.len() && (#[trigger] names@[i]).0@ == qualified_name(arg),
            r matches Some((name, attr)) ==> name@ == qualified_name(arg) && exists|i: int|
                0 <= i < names@.len() && names@[i].0@ == qualified_name(arg) && names@[i].1 == attr
                    && forall|k: int| 0 <= k < i ==> (#[trigger] names@[k]).0@ != qualified_name(arg),
    {
        let bytes = arg.as_bytes();
        let mut has_separator = false;
        let mut j: usize = 0;
        while j < bytes.len()
            invariant
                0 <= j <= bytes@.len(),
                bytes@ == arg.spec_bytes(),
                has_separator == exists|k: int| 0 <= k < j && bytes@[k] == NAMESPACE_SEPARATOR,
            decreases bytes@.len() - j,
        {
            if bytes[j] == NAMESPACE_SEPARATOR {
                has_separator = true;
            }
            j = j + 1;
        }
        let name = if has_separator {
            String::from_str(arg)
        } else {
            String::from_str(DEFAULT_NAMESPACE).concat(arg)
        };
        assert(name@ == qualified_name(arg));
        let mut i: usize = 0;
        while i < names.len()
            invariant
                0 <= i <= names@.len(),
                name@ == qualified_name(arg),
                forall|k: int| 0 <= k < i ==> (#[trigger] names@[k]).0@ != qualified_name(arg),
            decreases names@.len() - i,
        {
            if names[i].0 == name {
                return Some((name, names[i].1));
            }
            i = i + 1;
        }
        None
    }
}

} // verus!
