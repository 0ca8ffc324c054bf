//! Binary names, field descriptors and method descriptors of the Java
//! virtual machine: their values, their grammar and their source form.
use vstd::prelude::*;
use vstd::std_specs::cmp::PartialEqSpecImpl;

pub mod grammar;
pub mod laws;
pub mod parser;
pub mod render;

verus! {

/// The one way in which reading a descriptor fails.
#[derive(Debug, Clone, Copy, PartialEq, Eq, Structural)]
pub enum DemangleError {
    DemangleFailed,
}

/// A class name as the class file spells it: package parts, then the class.
#[derive(Debug)]
pub struct BinaryName {
    pub packages: Vec<String>,
    pub class: String,
}

/// A class used as a type: `L`, a binary name, `;`.
#[derive(Debug)]
pub struct ClassType {
    pub name: BinaryName,
}

/// What a field descriptor names once its array prefix is taken away.
#[derive(Debug)]
pub enum ScalarFieldType {
    Byte,
    Char,
    Double,
    Float,
    Integer,
    Long,
    Short,
    Boolean,
    Class { name: BinaryName },
}

/// A field descriptor: a scalar type under `dimensions` levels of array.
#[derive(Debug)]
pub struct FieldType {
    pub scalar_type: ScalarFieldType,
    pub dimensions: usize,
}

/// A method descriptor: the parameter types and, unless the method is void,
/// the return type.
#[derive(Debug)]
pub struct MethodType {
    pub parameter_types: Vec<FieldType>,
    pub return_type: Option<FieldType>,
}

/// What a `BinaryName` stands for.
pub struct BinaryNameView {
    pub packages: Seq<Seq<char>>,
    pub class: Seq<char>,
}

/// What a `ScalarFieldType` stands for.
pub enum ScalarFieldTypeView {
    Byte,
    Char,
    Double,
    Float,
    Integer,
    Long,
    Short,
    Boolean,
    Class { name: BinaryNameView },
}

/// What a `FieldType` stands for.
pub struct FieldTypeView {
    pub scalar_type: ScalarFieldTypeView,
    pub dimensions: nat,
}

/// What a `MethodType` stands for.
pub struct MethodTypeView {
    pub parameter_types: Seq<FieldTypeView>,
    pub return_type: Option<FieldTypeView>,
}

/// The contents of each string of `strings`.
pub open spec fn string_views(strings: Seq<String>) -> Seq<Seq<char>> {
    Seq::new(strings.len(), |i: int| strings[i]@)
}

/// The value of each descriptor of `types`.
pub open spec fn field_type_views(types: Seq<FieldType>) -> Seq<FieldTypeView> {
    Seq::new(types.len(), |i: int| types[i]@)
}

impl View for BinaryName {
    type V = BinaryNameView;

    open spec fn view(&self) -> BinaryNameView {
        BinaryNameView { packages: string_views(self.packages@), class: self.class@ }
    }
}

impl View for ClassType {
    type V = BinaryNameView;

    open spec fn view(&self) -> BinaryNameView {
        self.name@
    }
}

impl View for ScalarFieldType {
    type V = ScalarFieldTypeView;

    open spec fn view(&self) -> ScalarFieldTypeView {
        match self {
            ScalarFieldType::Byte => ScalarFieldTypeView::Byte,
            ScalarFieldType::Char => ScalarFieldTypeView::Char,
            ScalarFieldType::Double => ScalarFieldTypeView::Double,
            ScalarFieldType::Float => ScalarFieldTypeView::Float,
            ScalarFieldType::Integer => ScalarFieldTypeView::Integer,
            ScalarFieldType::Long => ScalarFieldTypeView::Long,
            ScalarFieldType::Short => ScalarFieldTypeView::Short,
            ScalarFieldType::Boolean => ScalarFieldTypeView::Boolean,
            ScalarFieldType::Class { name } => ScalarFieldTypeView::Class { name: name@ },
        }
    }
}

impl View for FieldType {
    type V = FieldTypeView;

    open spec fn view(&self) -> FieldTypeView {
        FieldTypeView { scalar_type: self.scalar_type@, dimensions: self.dimensions as nat }
    }
}

impl View for MethodType {
    type V = MethodTypeView;

    open spec fn view(&self) -> MethodTypeView {
        MethodTypeView {
            parameter_types: field_type_views(self.parameter_types@),
            return_type: match self.return_type {
                Some(t) => Some(t@),
                None => None,
            },
        }
    }
}

/// Whether two lists of strings hold the same text in the same order.
fn same_strings(a: &Vec<String>, b: &Vec<String>) -> (r: bool)
    ensures
        r == (string_views(a@) == string_views(b@)),
{
    if a.len() != b.len() {
        assert(string_views(a@).len() != string_views(b@).len());
        return false;
    }
    let mut i: usize = 0;
    while i < a.len()
        invariant
            a.len() == b.len(),
            i <= a.len(),
            forall|j: int| 0 <= j < i ==> a@[j]@ == b@[j]@,
        decreases a.len() - i,
    {
        if a[i] != b[i] {
            assert(string_views(a@)[i as int] != string_views(b@)[i as int]);
            return false;
        }
        i += 1;
    }
    assert(string_views(a@) =~= string_views(b@));
    true
}

impl PartialEq for BinaryName {
    fn eq(&self, other: &Self) -> (r: bool) {
        same_strings(&self.packages, &other.packages) && self.class == other.class
    }
}

impl PartialEqSpecImpl for BinaryName {
    open spec fn obeys_eq_spec() -> bool {
        true
    }

    open spec fn eq_spec(&self, other: &Self) -> bool {
        self@ == other@
    }
}

impl PartialEq for ClassType {
    fn eq(&self, other: &Self) -> (r: bool) {
        self.name == other.name
    }
}

impl PartialEqSpecImpl for ClassType {
    open spec fn obeys_eq_spec() -> bool {
        true
    }

    open spec fn eq_spec(&self, other: &Self) -> bool {
        self@ == other@
    }
}

impl PartialEq for ScalarFieldType {
    fn eq(&self, other: &Self) -> (r: bool) {
        match (self, other) {
            (ScalarFieldType::Byte, ScalarFieldType::Byte) => true,
            (ScalarFieldType::Char, ScalarFieldType::Char) => true,
            (ScalarFieldType::Double, ScalarFieldType::Double) => true,
            (ScalarFieldType::Float, ScalarFieldType::Float) => true,
            (ScalarFieldType::Integer, ScalarFieldType::Integer) => true,
            (ScalarFieldType::Long, ScalarFieldType::Long) => true,
            (ScalarFieldType::Short, ScalarFieldType::Short) => true,
            (ScalarFieldType::Boolean, ScalarFieldType::Boolean) => true,
            (ScalarFieldType::Class { name: a }, ScalarFieldType::Class { name: b }) => a == b,
            _ => false,
        }
    }
}

impl PartialEqSpecImpl for ScalarFieldType {
    open spec fn obeys_eq_spec() -> bool {
        true
    }

    open spec fn eq_spec(&self, other: &Self) -> bool {
        self@ == other@
    }
}

impl PartialEq for FieldType {
    fn eq(&self, other: &Self) -> (r: bool) {
        self.scalar_type == other.scalar_type && self.dimensions == other.dimensions
    }
}

impl PartialEqSpecImpl for FieldType {
    open spec fn obeys_eq_spec() -> bool {
        true
    }

    open spec fn eq_spec(&self, other: &Self) -> bool {
        self@ == other@
    }
}

/// Whether two lists of descriptors hold the same types in the same order.
fn same_field_types(a: &Vec<FieldType>, b: &Vec<FieldType>) -> (r: bool)
    ensures
        r == (field_type_views(a@) == field_type_views(b@)),
{
    if a.len() != b.len() {
        return false;
    }
    let mut i: usize = 0;
    while i < a.len()
        invariant
            a.len() == b.len(),
            i <= a.len(),
            forall|j: int| 0 <= j < i ==> a@[j]@ == b@[j]@,
        decreases a.len() - i,
    {
        if a[i] != b[i] {
            assert(field_type_views(a@)[i as int] != field_type_views(b@)[i as int]);
            return false;
        }
        i += 1;
    }
    assert(field_type_views(a@) =~= field_type_views(b@));
    true
}

impl PartialEq for MethodType {
    fn eq(&self, other: &Self) -> (r: bool) {
        let same_return = match (&self.return_type, &other.return_type) {
            (Some(a), Some(b)) => a == b,
            (None, None) => true,
            _ => false,
        };
        same_return && same_field_types(&self.parameter_types, &other.parameter_types)
    }
}

impl PartialEqSpecImpl for MethodType {
    open spec fn obeys_eq_spec() -> bool {
        true
    }

    open spec fn eq_spec(&self, other: &Self) -> bool {
        self@ == other@
    }
}

} // verus!
