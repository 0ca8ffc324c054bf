//! Reading descriptors.
use vstd::prelude::*;
use crate::demangle::grammar::{
    descriptor_end,
    find_first,
    has_empty_piece,
    parse_binary_name,
    parse_class_type,
    parse_field_type,
    parse_method_type,
    parse_parameters,
    parse_scalar,
    primitive_of,
    skip_all,
    split,
};
use crate::demangle::{
    field_type_views,
    string_views,
    BinaryName,
    ClassType,
    DemangleError,
    FieldType,
    FieldTypeView,
    MethodType,
    ScalarFieldType,
};
use crate::demangle::laws::lemma_binary_name_read;
use crate::text::{chars_of, push_char};

verus! {

/// Reads the binary name that `chars[from..to]` spells.
fn binary_name_of(chars: &Vec<char>, from: usize, to: usize) -> (result: Result<
    BinaryName,
    DemangleError,
>)
    requires
        from <= to <= chars.len(),
    ensures
        match result {
            Ok(name) => parse_binary_name(chars@.subrange(from as int, to as int)) == Some(name@),
            Err(_) => parse_binary_name(chars@.subrange(from as int, to as int)) is None,
        },
{
    let ghost s = chars@.subrange(from as int, to as int);
    let mut packages: Vec<String> = Vec::new();
    let mut current = String::new();
    let mut found_empty = false;
    let mut i: usize = from;
    while i < to
        invariant
            from <= i <= to <= chars.len(),
            s == chars@.subrange(from as int, to as int),
            split(s.take(i - from), '/') == string_views(packages@).push(current@),
            found_empty == has_empty_piece(string_views(packages@)),
        decreases to - i,
    {
        let c = chars[i];
        let ghost before = s.take(i - from);
        let ghost after = s.take(i - from + 1);
        let ghost old_packages = string_views(packages@);
        let ghost old_current = current@;
        assert(after.drop_last() =~= before);
        if c == '/' {
            if current.as_str().is_empty() {
                found_empty = true;
            }
            packages.push(current);
            current = String::new();
            assert(string_views(packages@) =~= old_packages.push(old_current));
            proof {
                if has_empty_piece(old_packages) {
                    let k = choose|k: int|
                        0 <= k < old_packages.len() && (#[trigger] old_packages[k]).len() == 0;
                    assert(string_views(packages@)[k].len() == 0);
                }
                if old_current.len() == 0 {
                    assert(string_views(packages@)[old_packages.len() as int].len() == 0);
                }
            }
        } else {
            push_char(&mut current, c);
        }
        i += 1;
    }
    assert(s.take(to - from) =~= s);
    let ghost pieces = split(s, '/');
    proof {
        assert(pieces.drop_last() =~= string_views(packages@));
    }
    if packages.len() > 0 && (found_empty || current.as_str().is_empty()) {
        return Err(DemangleError::DemangleFailed);
    }
    Ok(BinaryName { packages, class: current })
}

/// The primitive type that the tag letter `tag` names, if it names one.
fn primitive(tag: char) -> (result: Option<ScalarFieldType>)
    ensures
        match result {
            Some(t) => primitive_of(tag) == Some(t@),
            None => primitive_of(tag) is None,
        },
{
    if tag == 'B' {
        Some(ScalarFieldType::Byte)
    } else if tag == 'C' {
        Some(ScalarFieldType::Char)
    } else if tag == 'D' {
        Some(ScalarFieldType::Double)
    } else if tag == 'F' {
        Some(ScalarFieldType::Float)
    } else if tag == 'I' {
        Some(ScalarFieldType::Integer)
    } else if tag == 'J' {
        Some(ScalarFieldType::Long)
    } else if tag == 'S' {
        Some(ScalarFieldType::Short)
    } else if tag == 'Z' {
        Some(ScalarFieldType::Boolean)
    } else {
        None
    }
}

/// First position in `chars[from..to]` that does not hold `c`, or `to`.
fn skip_run(chars: &Vec<char>, c: char, from: usize, to: usize) -> (end: usize)
    requires
        from <= to <= chars.len(),
    ensures
        from <= end <= to,
        end - from == skip_all(chars@.subrange(from as int, to as int), c, 0),
        to == chars.len() ==> end == skip_all(chars@, c, from as int),
{
    let ghost s = chars@.subrange(from as int, to as int);
    let mut i: usize = from;
    while i < to && chars[i] == c
        invariant
            from <= i <= to <= chars.len(),
            s == chars@.subrange(from as int, to as int),
            skip_all(s, c, 0) == skip_all(s, c, i - from),
            to == chars.len() ==> skip_all(chars@, c, from as int) == skip_all(chars@, c, i as int),
        decreases to - i,
    {
        i += 1;
    }
    i
}

/// First position in `chars[from..to]` that holds `c`, or `to`. The result is
/// stated over `chars[base..to]`.
fn find_char(chars: &Vec<char>, c: char, base: usize, from: usize, to: usize) -> (end: usize)
    requires
        base <= from <= to <= chars.len(),
    ensures
        from <= end <= to,
        end - base == find_first(chars@.subrange(base as int, to as int), c, from - base),
{
    let ghost s = chars@.subrange(base as int, to as int);
    let mut i: usize = from;
    while i < to && chars[i] != c
        invariant
            base <= from <= i <= to <= chars.len(),
            s == chars@.subrange(base as int, to as int),
            find_first(s, c, from - base) == find_first(s, c, i - base),
        decreases to - i,
    {
        i += 1;
    }
    i
}

/// Reads the scalar type that `chars[from..to]` spells.
fn scalar_of(chars: &Vec<char>, from: usize, to: usize) -> (result: Result<
    ScalarFieldType,
    DemangleError,
>)
    requires
        from <= to <= chars.len(),
    ensures
        match result {
            Ok(t) => parse_scalar(chars@.subrange(from as int, to as int)) == Some(t@),
            Err(_) => parse_scalar(chars@.subrange(from as int, to as int)) is None,
        },
{
    let ghost s = chars@.subrange(from as int, to as int);
    if to - from == 1 {
        return match primitive(chars[from]) {
            Some(t) => Ok(t),
            None => Err(DemangleError::DemangleFailed),
        };
    }
    if to - from < 3 || chars[from] != 'L' {
        return Err(DemangleError::DemangleFailed);
    }
    let semicolon = find_char(chars, ';', from, from + 1, to);
    if semicolon != to - 1 {
        return Err(DemangleError::DemangleFailed);
    }
    assert(s.subrange(1, s.len() - 1) =~= chars@.subrange(from + 1, to - 1));
    match binary_name_of(chars, from + 1, to - 1) {
        Ok(name) => Ok(ScalarFieldType::Class { name }),
        Err(e) => Err(e),
    }
}

/// Reads the field descriptor that `chars[from..to]` spells.
fn field_type_of(chars: &Vec<char>, from: usize, to: usize) -> (result: Result<
    FieldType,
    DemangleError,
>)
    requires
        from <= to <= chars.len(),
    ensures
        match result {
            Ok(t) => parse_field_type(chars@.subrange(from as int, to as int)) == Some(t@),
            Err(_) => parse_field_type(chars@.subrange(from as int, to as int)) is None,
        },
{
    let ghost s = chars@.subrange(from as int, to as int);
    let tag = skip_run(chars, '[', from, to);
    assert(s.skip(tag - from) =~= chars@.subrange(tag as int, to as int));
    match scalar_of(chars, tag, to) {
        Ok(scalar_type) => Ok(FieldType { scalar_type, dimensions: tag - from }),
        Err(e) => Err(e),
    }
}

/// Where the descriptor that starts at `from` ends, going by its shape.
fn descriptor_end_of(chars: &Vec<char>, from: usize) -> (result: Option<usize>)
    requires
        from <= chars.len(),
    ensures
        match result {
            Some(end) => descriptor_end(chars@, from as int) == Some(end as int) && from < end
                <= chars.len(),
            None => descriptor_end(chars@, from as int) is None,
        },
{
    let n = chars.len();
    let tag = skip_run(chars, '[', from, n);
    if tag >= n {
        return None;
    }
    if primitive(chars[tag]).is_some() {
        return Some(tag + 1);
    }
    if chars[tag] != 'L' {
        return None;
    }
    assert(chars@.subrange(0, n as int) =~= chars@);
    let end = find_char(chars, ';', 0, tag + 1, n);
    if end < n {
        Some(end + 1)
    } else {
        None
    }
}

impl BinaryName {
    /// Reads a binary name such as `java/lang/Thread`.
    pub fn new(mangled_name: &str) -> (result: Result<BinaryName, DemangleError>)
        ensures
            match result {
                Ok(name) => parse_binary_name(mangled_name@) == Some(name@) && name@.well_formed(),
                Err(e) => parse_binary_name(mangled_name@) is None && e
                    == DemangleError::DemangleFailed,
            },
    {
        let chars = chars_of(mangled_name);
        assert(chars@.subrange(0, chars.len() as int) =~= chars@);
        let result = binary_name_of(&chars, 0, chars.len());
        proof {
            if result is Ok {
                lemma_binary_name_read(mangled_name@);
            }
        }
        result
    }
}

impl ClassType {
    /// Reads a class type such as `Ljava/lang/Thread;`.
    pub fn new(mangled_class_type: &str) -> (result: Result<ClassType, DemangleError>)
        ensures
            match result {
                Ok(class) => parse_class_type(mangled_class_type@) == Some(class@)
                    && class@.well_formed(),
                Err(e) => parse_class_type(mangled_class_type@) is None && e
                    == DemangleError::DemangleFailed,
            },
    {
        let chars = chars_of(mangled_class_type);
        let n = chars.len();
        if !(n >= 3 && chars[0] == 'L' && chars[n - 1] == ';') {
            return Err(DemangleError::DemangleFailed);
        }
        match binary_name_of(&chars, 1, n - 1) {
            Ok(name) => {
                proof {
                    lemma_binary_name_read(mangled_class_type@.subrange(1, n - 1));
                }
                Ok(ClassType { name })
            },
            Err(e) => Err(e),
        }
    }
}

impl FieldType {
    /// Reads a field descriptor such as `[[Ljava/lang/Thread;` or `I`.
    pub fn new(mangled_field_type: &str) -> (result: Result<FieldType, DemangleError>)
        ensures
            match result {
                Ok(t) => parse_field_type(mangled_field_type@) == Some(t@),
                Err(e) => parse_field_type(mangled_field_type@) is None && e
                    == DemangleError::DemangleFailed,
            },
    {
        let chars = chars_of(mangled_field_type);
        assert(chars@.subrange(0, chars.len() as int) =~= chars@);
        field_type_of(&chars, 0, chars.len())
    }
}

/// What the parameters read so far and the rest of the parameter list give
/// together.
pub open spec fn with_parameters_before(
    before: Seq<FieldTypeView>,
    rest: Option<(Seq<FieldTypeView>, int)>,
) -> Option<(Seq<FieldTypeView>, int)> {
    match rest {
        Some((after, stop)) => Some((before + after, stop)),
        None => None,
    }
}

impl MethodType {
    /// Reads a method descriptor such as `(ID[Ljava/lang/Thread;)V`.
    pub fn new(mangled_method_type: &str) -> (result: Result<MethodType, DemangleError>)
        ensures
            match result {
                Ok(t) => parse_method_type(mangled_method_type@) == Some(t@),
                Err(e) => parse_method_type(mangled_method_type@) is None && e
                    == DemangleError::DemangleFailed,
            },
    {
        let chars = chars_of(mangled_method_type);
        let n = chars.len();
        if n == 0 || chars[0] != '(' {
            return Err(DemangleError::DemangleFailed);
        }
        let mut parameter_types: Vec<FieldType> = Vec::new();
        let mut i: usize = 1;
        loop
            invariant
                1 <= i <= n == chars.len(),
                chars@ == mangled_method_type@,
                chars@[0] == '(',
                parse_parameters(chars@, 1) == with_parameters_before(
                    field_type_views(parameter_types@),
                    parse_parameters(chars@, i as int),
                ),
            ensures
                i < n,
                parse_parameters(chars@, 1) == Some(
                    (field_type_views(parameter_types@), i as int + 1),
                ),
            decreases n - i,
        {
            if i >= n {
                return Err(DemangleError::DemangleFailed);
            }
            if chars[i] == ')' {
                break;
            }
            let end = match descriptor_end_of(&chars, i) {
                Some(end) => end,
                None => {
                    return Err(DemangleError::DemangleFailed);
                },
            };
            let parameter = match field_type_of(&chars, i, end) {
                Ok(t) => t,
                Err(e) => {
                    return Err(e);
                },
            };
            parameter_types.push(parameter);
            i = end;
        }
        let start = i + 1;
        if n - start == 1 && chars[start] == 'V' {
            return Ok(MethodType { parameter_types, return_type: None });
        }
        match field_type_of(&chars, start, n) {
            Ok(t) => Ok(MethodType { parameter_types, return_type: Some(t) }),
            Err(e) => Err(e),
        }
    }
}

} // verus!
