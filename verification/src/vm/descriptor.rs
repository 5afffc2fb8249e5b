//! Method descriptors: counting the parameters of `"(args)ret"`.

use vstd::prelude::*;

verus! {

/// Where a scan of the parameters stands.
#[derive(Debug, Clone, Copy, PartialEq, Eq, Structural)]
pub enum ScanState {
    /// Before the next parameter.
    Parameter,
    /// Inside the class name of an object type, up to its `;`.
    ClassName,
    /// Behind the `[` of an array type, before its component type.
    Component,
}

/// One of `B C D F I J S Z`: the descriptor of a primitive type.
pub open spec fn is_primitive(c: char) -> bool {
    c == 'B' || c == 'C' || c == 'D' || c == 'F' || c == 'I' || c == 'J' || c == 'S' || c == 'Z'
}

/// The number of parameters that begin at or after `i`, for a scan that
/// stands in `state` there. A primitive type is one parameter; `L` begins
/// an object type, one parameter that ends at the next `;`; `[` begins an
/// array type, one parameter made of any number of `[` and a component
/// type; any other character is passed over. In a component type such a
/// character stands for the component. The scan ends at `)` before a
/// parameter, or with the descriptor.
pub open spec fn count_from(descriptor: Seq<char>, i: int, state: ScanState) -> nat
    decreases descriptor.len() - i,
{
    if i < 0 || i >= descriptor.len() {
        0
    } else {
        let c = descriptor[i];
        match state {
            ScanState::Parameter => if c == ')' {
                0
            } else if is_primitive(c) {
                1 + count_from(descriptor, i + 1, ScanState::Parameter)
            } else if c == 'L' {
                1 + count_from(descriptor, i + 1, ScanState::ClassName)
            } else if c == '[' {
                1 + count_from(descriptor, i + 1, ScanState::Component)
            } else {
                count_from(descriptor, i + 1, ScanState::Parameter)
            },
            ScanState::ClassName => if c == ';' {
                count_from(descriptor, i + 1, ScanState::Parameter)
            } else {
                count_from(descriptor, i + 1, ScanState::ClassName)
            },
            ScanState::Component => if c == '[' {
                count_from(descriptor, i + 1, ScanState::Component)
            } else if c == 'L' {
                count_from(descriptor, i + 1, ScanState::ClassName)
            } else {
                count_from(descriptor, i + 1, ScanState::Parameter)
            },
        }
    }
}

/// The index of the first `(` at or after `i`, or the length of the
/// descriptor where there is none.
pub open spec fn opening(descriptor: Seq<char>, i: int) -> int
    decreases descriptor.len() - i,
{
    if i < 0 || i >= descriptor.len() {
        descriptor.len() as int
    } else if descriptor[i] == '(' {
        i
    } else {
        opening(descriptor, i + 1)
    }
}

/// The number of parameters of a method descriptor: those between its first
/// `(` and the `)` that ends them; 0 where it has no `(`.
pub open spec fn count_params(descriptor: Seq<char>) -> nat {
    count_from(descriptor, opening(descriptor, 0) + 1, ScanState::Parameter)
}

} // verus!
