//! Writing descriptors in the form that Java source uses.
use vstd::prelude::*;
use vstd::string::StringExecFns;
use crate::demangle::grammar::join;
use crate::demangle::{
    field_type_views,
    string_views,
    BinaryName,
    BinaryNameView,
    ClassType,
    FieldType,
    FieldTypeView,
    MethodType,
    MethodTypeView,
    ScalarFieldType,
    ScalarFieldTypeView,
};
use crate::text::{push_char, push_decimal};

verus! {

/// `[]`, once for each of `depth` array levels.
pub open spec fn array_suffix(depth: nat) -> Seq<char>
    decreases depth,
{
    if depth == 0 {
        Seq::empty()
    } else {
        array_suffix((depth - 1) as nat) + seq!['[', ']']
    }
}

/// The name of the parameter at position `index`: `p0`, `p1`, and so on.
pub open spec fn parameter_name(index: nat) -> Seq<char> {
    seq!['p'] + crate::text::decimal(index)
}

impl BinaryNameView {
    /// The name as source code writes it: `java.lang.Thread`.
    pub open spec fn source_form(self) -> Seq<char> {
        if self.packages.len() == 0 {
            self.class
        } else {
            join(self.packages, seq!['.']) + seq!['.'] + self.class
        }
    }

    /// The path of a source file of this class's package:
    /// `java/lang/Thread.java` for `Thread.java`.
    pub open spec fn file_path(self, source_file_name: Seq<char>) -> Seq<char> {
        if self.packages.len() == 0 {
            source_file_name
        } else {
            join(self.packages, seq!['/']) + seq!['/'] + source_file_name
        }
    }

    /// The name as the class file spells it: `java/lang/Thread`.
    pub open spec fn mangled_form(self) -> Seq<char> {
        join(self.packages.push(self.class), seq!['/'])
    }
}

impl ScalarFieldTypeView {
    /// The type as source code writes it.
    pub open spec fn source_form(self) -> Seq<char> {
        match self {
            ScalarFieldTypeView::Byte => seq!['b', 'y', 't', 'e'],
            ScalarFieldTypeView::Char => seq!['c', 'h', 'a', 'r'],
            ScalarFieldTypeView::Double => seq!['d', 'o', 'u', 'b', 'l', 'e'],
            ScalarFieldTypeView::Float => seq!['f', 'l', 'o', 'a', 't'],
            ScalarFieldTypeView::Integer => seq!['i', 'n', 't'],
            ScalarFieldTypeView::Long => seq!['l', 'o', 'n', 'g'],
            ScalarFieldTypeView::Short => seq!['s', 'h', 'o', 'r', 't'],
            ScalarFieldTypeView::Boolean => seq!['b', 'o', 'o', 'l', 'e', 'a', 'n'],
            ScalarFieldTypeView::Class { name } => name.source_form(),
        }
    }
}

impl FieldTypeView {
    /// The type as source code writes it: `java.lang.Thread[][]`.
    pub open spec fn source_form(self) -> Seq<char> {
        self.scalar_type.source_form() + array_suffix(self.dimensions)
    }
}

/// The source form of each type of `types`.
pub open spec fn source_forms(types: Seq<FieldTypeView>) -> Seq<Seq<char>> {
    Seq::new(types.len(), |i: int| types[i].source_form())
}

/// Each type of `types` in source form, followed by a blank and the name of
/// the parameter at its position.
pub open spec fn parameter_declarations(types: Seq<FieldTypeView>) -> Seq<Seq<char>> {
    Seq::new(
        types.len(),
        |i: int| types[i].source_form() + seq![' '] + parameter_name(i as nat),
    )
}

impl MethodTypeView {
    /// The return type as source code writes it; `void` when there is none.
    pub open spec fn return_source_form(self) -> Seq<char> {
        match self.return_type {
            Some(t) => t.source_form(),
            None => seq!['v', 'o', 'i', 'd'],
        }
    }

    /// The return type, a blank and the parameter types in brackets:
    /// `void (int, double)`.
    pub open spec fn source_form(self) -> Seq<char> {
        self.return_source_form() + seq![' ', '('] + join(
            source_forms(self.parameter_types),
            seq![',', ' '],
        ) + seq![')']
    }

    /// The head of a method definition:
    /// `void java.lang.Thread.run(int p0, double p1)`.
    pub open spec fn method_definition(self, method_name: Seq<char>, class_name: Seq<char>) -> Seq<
        char,
    > {
        self.return_source_form() + seq![' '] + class_name + seq!['.'] + method_name + seq!['(']
            + join(parameter_declarations(self.parameter_types), seq![',', ' ']) + seq![')']
    }
}

/// A value that has a form in which source code writes it.
pub trait SourceForm {
    /// The source form of the value.
    spec fn source_form(&self) -> Seq<char>;

    /// Writes the value in its source form.
    fn to_string(&self) -> (s: String)
        ensures
            s@ == self.source_form(),
    ;
}

/// Appends `text` to `out`, one character after the other.
fn push_chars(out: &mut String, text: &[char])
    ensures
        final(out)@ == old(out)@ + text@,
{
    let mut i: usize = 0;
    while i < text.len()
        invariant
            i <= text.len(),
            out@ == old(out)@ + text@.take(i as int),
        decreases text.len() - i,
    {
        push_char(out, text[i]);
        i += 1;
    }
}

/// Appends the strings of `parts` to `out`, with `sep` between neighbours.
fn push_joined(out: &mut String, parts: &Vec<String>, sep: &[char])
    ensures
        final(out)@ == old(out)@ + join(string_views(parts@), sep@),
{
    let ghost views = string_views(parts@);
    let mut i: usize = 0;
    while i < parts.len()
        invariant
            i <= parts.len(),
            views == string_views(parts@),
            out@ == old(out)@ + join(views.take(i as int), sep@),
        decreases parts.len() - i,
    {
        if i > 0 {
            push_chars(out, sep);
        }
        out.append(parts[i].as_str());
        proof {
            assert(views.take(i + 1).drop_last() =~= views.take(i as int));
        }
        i += 1;
    }
    assert(views.take(parts.len() as int) =~= views);
}

impl BinaryName {
    /// The path of `source_file_name` under the directories of this name's
    /// package.
    pub fn package_as_file_path(&self, source_file_name: &str) -> (path: String)
        ensures
            path@ == self@.file_path(source_file_name@),
    {
        let mut path = String::new();
        if self.packages.len() > 0 {
            let slash: [char; 1] = ['/'];
            assert(slash@ =~= seq!['/']);
            push_joined(&mut path, &self.packages, slash.as_slice());
            push_char(&mut path, '/');
        }
        path.append(source_file_name);
        path
    }
}

impl SourceForm for BinaryName {
    open spec fn source_form(&self) -> Seq<char> {
        self@.source_form()
    }

    fn to_string(&self) -> (s: String) {
        let mut s = String::new();
        if self.packages.len() > 0 {
            let dot: [char; 1] = ['.'];
            assert(dot@ =~= seq!['.']);
            push_joined(&mut s, &self.packages, dot.as_slice());
            push_char(&mut s, '.');
        }
        s.append(self.class.as_str());
        s
    }
}

impl ClassType {
    /// The path of `source_file_name` under the directories of this class's
    /// package.
    pub fn package_as_file_path(&self, source_file_name: &str) -> (path: String)
        ensures
            path@ == self@.file_path(source_file_name@),
    {
        self.name.package_as_file_path(source_file_name)
    }
}

impl SourceForm for ClassType {
    open spec fn source_form(&self) -> Seq<char> {
        self@.source_form()
    }

    fn to_string(&self) -> (s: String) {
        self.name.to_string()
    }
}

impl SourceForm for ScalarFieldType {
    open spec fn source_form(&self) -> Seq<char> {
        self@.source_form()
    }

    fn to_string(&self) -> (s: String) {
        let mut s = String::new();
        match self {
            ScalarFieldType::Byte => push_chars(&mut s, &['b', 'y', 't', 'e']),
            ScalarFieldType::Char => push_chars(&mut s, &['c', 'h', 'a', 'r']),
            ScalarFieldType::Double => push_chars(&mut s, &['d', 'o', 'u', 'b', 'l', 'e']),
            ScalarFieldType::Float => push_chars(&mut s, &['f', 'l', 'o', 'a', 't']),
            ScalarFieldType::Integer => push_chars(&mut s, &['i', 'n', 't']),
            ScalarFieldType::Long => push_chars(&mut s, &['l', 'o', 'n', 'g']),
            ScalarFieldType::Short => push_chars(&mut s, &['s', 'h', 'o', 'r', 't']),
            ScalarFieldType::Boolean => push_chars(&mut s, &['b', 'o', 'o', 'l', 'e', 'a', 'n']),
            ScalarFieldType::Class { name } => {
                s = name.to_string();
            },
        }
        s
    }
}

impl SourceForm for FieldType {
    open spec fn source_form(&self) -> Seq<char> {
        self@.source_form()
    }

    fn to_string(&self) -> (s: String) {
        let mut s = self.scalar_type.to_string();
        let mut i: usize = 0;
        while i < self.dimensions
            invariant
                i <= self.dimensions,
                s@ == self.scalar_type@.source_form() + array_suffix(i as nat),
            decreases self.dimensions - i,
        {
            push_char(&mut s, '[');
            push_char(&mut s, ']');
            i += 1;
        }
        s
    }
}

impl MethodType {
    /// The return type in source form; `void` when there is none.
    fn return_to_string(&self) -> (s: String)
        ensures
            s@ == self@.return_source_form(),
    {
        match &self.return_type {
            Some(t) => t.to_string(),
            None => {
                let mut s = String::new();
                push_chars(&mut s, &['v', 'o', 'i', 'd']);
                s
            },
        }
    }

    /// The head of a definition of a method of this type, named `method_name`,
    /// in the class that `class_name` renders.
    pub fn display_as_method_definition<T: SourceForm>(
        &self,
        method_name: &str,
        class_name: &T,
    ) -> (definition: String)
        ensures
            definition@ == self@.method_definition(method_name@, class_name.source_form()),
    {
        let mut parameters: Vec<String> = Vec::new();
        let mut i: usize = 0;
        while i < self.parameter_types.len()
            invariant
                i <= self.parameter_types.len(),
                string_views(parameters@) == parameter_declarations(
                    field_type_views(self.parameter_types@),
                ).take(i as int),
            decreases self.parameter_types.len() - i,
        {
            let mut declaration = self.parameter_types[i].to_string();
            push_char(&mut declaration, ' ');
            push_char(&mut declaration, 'p');
            push_decimal(&mut declaration, i as u64);
            let ghost added = declaration@;
            parameters.push(declaration);
            proof {
                let all = parameter_declarations(field_type_views(self.parameter_types@));
                assert(added =~= all[i as int]);
                assert(all.take(i + 1) =~= all.take(i as int).push(all[i as int]));
            }
            i += 1;
        }
        proof {
            let all = parameter_declarations(field_type_views(self.parameter_types@));
            assert(all.take(self.parameter_types.len() as int) =~= all);
        }
        let mut definition = self.return_to_string();
        push_char(&mut definition, ' ');
        let class_text = class_name.to_string();
        definition.append(class_text.as_str());
        push_char(&mut definition, '.');
        definition.append(method_name);
        push_char(&mut definition, '(');
        let comma: [char; 2] = [',', ' '];
        assert(comma@ =~= seq![',', ' ']);
        push_joined(&mut definition, &parameters, comma.as_slice());
        push_char(&mut definition, ')');
        definition
    }
}

impl SourceForm for MethodType {
    open spec fn source_form(&self) -> Seq<char> {
        self@.source_form()
    }

    fn to_string(&self) -> (s: String) {
        let mut parameters: Vec<String> = Vec::new();
        let mut i: usize = 0;
        while i < self.parameter_types.len()
            invariant
                i <= self.parameter_types.len(),
                string_views(parameters@) == source_forms(
                    field_type_views(self.parameter_types@),
                ).take(i as int),
            decreases self.parameter_types.len() - i,
        {
            let text = self.parameter_types[i].to_string();
            parameters.push(text);
            proof {
                let all = source_forms(field_type_views(self.parameter_types@));
                assert(all.take(i + 1) =~= all.take(i as int).push(all[i as int]));
            }
            i += 1;
        }
        proof {
            let all = source_forms(field_type_views(self.parameter_types@));
            assert(all.take(self.parameter_types.len() as int) =~= all);
        }
        let mut s = self.return_to_string();
        push_char(&mut s, ' ');
        push_char(&mut s, '(');
        let comma: [char; 2] = [',', ' '];
        assert(comma@ =~= seq![',', ' ']);
        push_joined(&mut s, &parameters, comma.as_slice());
        push_char(&mut s, ')');
        s
    }
}

} // verus!
