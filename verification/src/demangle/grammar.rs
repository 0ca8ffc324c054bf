//! The descriptor grammar, stated over sequences of characters.
use vstd::prelude::*;
use crate::demangle::{BinaryNameView, FieldTypeView, MethodTypeView, ScalarFieldTypeView};

verus! {

/// The pieces of `s` that lie between occurrences of `sep`. There is always
/// at least one piece, and a piece may be empty.
pub open spec fn split(s: Seq<char>, sep: char) -> Seq<Seq<char>>
    decreases s.len(),
{
    if s.len() == 0 {
        seq![Seq::empty()]
    } else {
        let before = split(s.drop_last(), sep);
        if s.last() == sep {
            before.push(Seq::empty())
        } else {
            before.update(before.len() - 1, before.last().push(s.last()))
        }
    }
}

/// The pieces of `parts` in order, with `sep` between neighbours.
pub open spec fn join(parts: Seq<Seq<char>>, sep: Seq<char>) -> Seq<char>
    decreases parts.len(),
{
    if parts.len() == 0 {
        Seq::empty()
    } else if parts.len() == 1 {
        parts[0]
    } else {
        join(parts.drop_last(), sep) + sep + parts.last()
    }
}

/// Whether one of `pieces` is empty.
pub open spec fn has_empty_piece(pieces: Seq<Seq<char>>) -> bool {
    exists|i: int| 0 <= i < pieces.len() && (#[trigger] pieces[i]).len() == 0
}

/// A binary name is its pieces between `/`: the last is the class, the ones
/// before it are the package. No piece is empty, unless the whole name is.
pub open spec fn parse_binary_name(s: Seq<char>) -> Option<BinaryNameView> {
    let pieces = split(s, '/');
    if pieces.len() > 1 && has_empty_piece(pieces) {
        None
    } else {
        Some(BinaryNameView { packages: pieces.drop_last(), class: pieces.last() })
    }
}

/// A class type is `L`, a binary name that is not empty, and `;`.
pub open spec fn parse_class_type(s: Seq<char>) -> Option<BinaryNameView> {
    if s.len() >= 3 && s[0] == 'L' && s.last() == ';' {
        parse_binary_name(s.subrange(1, s.len() - 1))
    } else {
        None
    }
}

/// The primitive type that a tag letter names.
pub open spec fn primitive_of(tag: char) -> Option<ScalarFieldTypeView> {
    if tag == 'B' {
        Some(ScalarFieldTypeView::Byte)
    } else if tag == 'C' {
        Some(ScalarFieldTypeView::Char)
    } else if tag == 'D' {
        Some(ScalarFieldTypeView::Double)
    } else if tag == 'F' {
        Some(ScalarFieldTypeView::Float)
    } else if tag == 'I' {
        Some(ScalarFieldTypeView::Integer)
    } else if tag == 'J' {
        Some(ScalarFieldTypeView::Long)
    } else if tag == 'S' {
        Some(ScalarFieldTypeView::Short)
    } else if tag == 'Z' {
        Some(ScalarFieldTypeView::Boolean)
    } else {
        None
    }
}

/// First position at or after `from` that does not hold `c`, or the length
/// of `s` when every later position holds it.
pub open spec fn skip_all(s: Seq<char>, c: char, from: int) -> int
    decreases s.len() - from,
{
    if 0 <= from < s.len() && s[from] == c {
        skip_all(s, c, from + 1)
    } else {
        from
    }
}

/// First position at or after `from` that holds `c`, or the length of `s`
/// when no later position holds it.
pub open spec fn find_first(s: Seq<char>, c: char, from: int) -> int
    decreases s.len() - from,
{
    if 0 <= from < s.len() && s[from] != c {
        find_first(s, c, from + 1)
    } else {
        from
    }
}

/// A scalar is one primitive tag, or `L`, a binary name that is not empty and
/// the one `;` that ends it.
pub open spec fn parse_scalar(s: Seq<char>) -> Option<ScalarFieldTypeView> {
    if s.len() == 1 {
        primitive_of(s[0])
    } else if s.len() >= 3 && s[0] == 'L' && find_first(s, ';', 1) == s.len() - 1 {
        match parse_binary_name(s.subrange(1, s.len() - 1)) {
            Some(name) => Some(ScalarFieldTypeView::Class { name }),
            None => None,
        }
    } else {
        None
    }
}

/// A field descriptor is any number of `[` and then a scalar that takes all
/// the rest.
pub open spec fn parse_field_type(s: Seq<char>) -> Option<FieldTypeView> {
    let depth = skip_all(s, '[', 0);
    match parse_scalar(s.skip(depth)) {
        Some(scalar_type) => Some(FieldTypeView { scalar_type, dimensions: depth as nat }),
        None => None,
    }
}

/// Where the field descriptor that starts at `from` ends, by its shape alone:
/// after the tag that follows the `[`s, or after the first `;` when that tag
/// is `L`.
pub open spec fn descriptor_end(s: Seq<char>, from: int) -> Option<int> {
    let tag = skip_all(s, '[', from);
    if tag < 0 || tag >= s.len() {
        None
    } else if primitive_of(s[tag]) is Some {
        Some(tag + 1)
    } else if s[tag] == 'L' {
        let end = find_first(s, ';', tag + 1);
        if end < s.len() {
            Some(end + 1)
        } else {
            None
        }
    } else {
        None
    }
}

/// The parameter descriptors that start at `from`, up to the `)` that closes
/// them, and the position after that `)`.
pub open spec fn parse_parameters(s: Seq<char>, from: int) -> Option<(Seq<FieldTypeView>, int)>
    decreases s.len() - from,
{
    if from < 0 || from >= s.len() {
        None
    } else if s[from] == ')' {
        Some((Seq::empty(), from + 1))
    } else {
        match descriptor_end(s, from) {
            Some(end) => if end > from {
                match (parse_field_type(s.subrange(from, end)), parse_parameters(s, end)) {
                    (Some(first), Some((rest, stop))) => Some((seq![first] + rest, stop)),
                    _ => None,
                }
            } else {
                None
            },
            None => None,
        }
    }
}

/// A return descriptor is `V` for no value, or a field descriptor.
pub open spec fn parse_return(s: Seq<char>) -> Option<Option<FieldTypeView>> {
    if s.len() == 1 && s[0] == 'V' {
        Some(None)
    } else {
        match parse_field_type(s) {
            Some(t) => Some(Some(t)),
            None => None,
        }
    }
}

/// A method descriptor is `(`, the parameter descriptors, `)` and the return
/// descriptor, with nothing after it.
pub open spec fn parse_method_type(s: Seq<char>) -> Option<MethodTypeView> {
    if s.len() == 0 || s[0] != '(' {
        None
    } else {
        match parse_parameters(s, 1) {
            Some((parameter_types, stop)) => match parse_return(s.skip(stop)) {
                Some(return_type) => Some(MethodTypeView { parameter_types, return_type }),
                None => None,
            },
            None => None,
        }
    }
}

} // verus!
