//! What holds between reading a name and writing it.
use vstd::prelude::*;
use crate::demangle::grammar::{has_empty_piece, join, parse_binary_name, split};
use crate::demangle::render::array_suffix;
use crate::demangle::{BinaryNameView, FieldTypeView, ScalarFieldTypeView};

verus! {

/// Whether `c` occurs nowhere in any of `pieces`.
pub open spec fn free_of(pieces: Seq<Seq<char>>, c: char) -> bool {
    forall|i: int, j: int|
        0 <= i < pieces.len() && 0 <= j < pieces[i].len() ==> (#[trigger] pieces[i][j]) != c
}

impl BinaryNameView {
    /// The names that reading can give: no part holds a `/`, and where there
    /// is a package no part is empty.
    pub open spec fn well_formed(self) -> bool {
        &&& free_of(self.packages.push(self.class), '/')
        &&& self.packages.len() > 0 ==> !has_empty_piece(self.packages.push(self.class))
    }
}

/// Splitting always gives at least one piece, and no piece holds the
/// separator.
pub proof fn lemma_split_pieces(s: Seq<char>, sep: char)
    ensures
        split(s, sep).len() >= 1,
        free_of(split(s, sep), sep),
    decreases s.len(),
{
    if s.len() > 0 {
        lemma_split_pieces(s.drop_last(), sep);
    }
}

/// Joining the pieces of `s` with the separator gives `s` back.
pub proof fn lemma_join_of_split(s: Seq<char>, sep: char)
    ensures
        join(split(s, sep), seq![sep]) == s,
    decreases s.len(),
{
    if s.len() > 0 {
        let t = s.drop_last();
        lemma_join_of_split(t, sep);
        lemma_split_pieces(t, sep);
        let before = split(t, sep);
        let pieces = split(s, sep);
        if s.last() == sep {
            assert(pieces.drop_last() =~= before);
        } else if before.len() > 1 {
            assert(pieces.drop_last() =~= before.drop_last());
            assert(s =~= t.push(s.last()));
        }
    }
}

/// Text without the separator, put after `s`, only makes the last piece of
/// `s` longer.
pub proof fn lemma_split_extended(s: Seq<char>, tail: Seq<char>, sep: char)
    requires
        forall|j: int| 0 <= j < tail.len() ==> tail[j] != sep,
    ensures
        split(s, sep).len() >= 1,
        split(s + tail, sep) == split(s, sep).update(
            split(s, sep).len() - 1,
            split(s, sep).last() + tail,
        ),
    decreases tail.len(),
{
    lemma_split_pieces(s, sep);
    let pieces = split(s, sep);
    if tail.len() > 0 {
        let shorter = tail.drop_last();
        lemma_split_extended(s, shorter, sep);
        assert((s + tail).drop_last() =~= s + shorter);
        assert((pieces.last() + shorter).push(tail.last()) =~= pieces.last() + tail);
    }
}

/// Splitting what joining gave returns the pieces, when there is at least one
/// and none holds the separator.
pub proof fn lemma_split_of_join(pieces: Seq<Seq<char>>, sep: char)
    requires
        pieces.len() >= 1,
        free_of(pieces, sep),
    ensures
        split(join(pieces, seq![sep]), sep) == pieces,
    decreases pieces.len(),
{
    let last = pieces.last();
    if pieces.len() == 1 {
        let nothing = Seq::<char>::empty();
        lemma_split_extended(nothing, last, sep);
    } else {
        let before = pieces.drop_last();
        lemma_split_of_join(before, sep);
        let head = join(before, seq![sep]) + seq![sep];
        assert(head.drop_last() =~= join(before, seq![sep]));
        lemma_split_extended(head, last, sep);
    }
}

/// Reading a well-formed name in its mangled form gives the name back.
pub proof fn lemma_binary_name_round_trip(name: BinaryNameView)
    requires
        name.well_formed(),
    ensures
        parse_binary_name(name.mangled_form()) == Some(name),
{
    let pieces = name.packages.push(name.class);
    lemma_split_of_join(pieces, '/');
    assert(pieces.drop_last() =~= name.packages);
}

/// Every name that reading gives is well formed, and its mangled form is the
/// text that was read.
pub proof fn lemma_binary_name_read(s: Seq<char>)
    requires
        parse_binary_name(s) is Some,
    ensures
        parse_binary_name(s)->0.well_formed(),
        parse_binary_name(s)->0.mangled_form() == s,
{
    let pieces = split(s, '/');
    let name = parse_binary_name(s)->0;
    lemma_split_pieces(s, '/');
    lemma_join_of_split(s, '/');
    assert(name.packages.push(name.class) =~= pieces);
}

/// With the class name as the file name, the path of a source file is the
/// mangled form of the name.
pub proof fn lemma_file_path_of_class(name: BinaryNameView)
    ensures
        name.file_path(name.class) == name.mangled_form(),
{
    let pieces = name.packages.push(name.class);
    if name.packages.len() > 0 {
        assert(pieces.drop_last() =~= name.packages);
    }
}

/// The array suffix holds one `[` and one `]` for each level, in turn.
pub proof fn lemma_array_suffix(depth: nat)
    ensures
        array_suffix(depth).len() == 2 * depth,
        forall|i: int|
            0 <= i < 2 * depth ==> #[trigger] array_suffix(depth)[i] == if i % 2 == 0 {
                '['
            } else {
                ']'
            },
    decreases depth,
{
    if depth > 0 {
        lemma_array_suffix((depth - 1) as nat);
    }
}

/// The source form of a class type or an array of classes is the package
/// parts and the class joined by dots, then one `[]` for each array level.
pub proof fn lemma_class_source_form(t: FieldTypeView, name: BinaryNameView)
    requires
        t.scalar_type == (ScalarFieldTypeView::Class { name }),
    ensures
        t.source_form() == join(name.packages.push(name.class), seq!['.']) + array_suffix(
            t.dimensions,
        ),
        array_suffix(t.dimensions).len() == 2 * t.dimensions,
{
    let pieces = name.packages.push(name.class);
    if name.packages.len() > 0 {
        assert(pieces.drop_last() =~= name.packages);
    }
    lemma_array_suffix(t.dimensions);
}

} // verus!
