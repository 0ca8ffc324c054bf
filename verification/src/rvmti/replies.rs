//! Reading what a call into the tool interface brought back: the status
//! first, then the values, in the order in which a failure counts.
use vstd::prelude::*;
use crate::rvmti::codes::{JniError, JvmtiError};
use crate::rvmti::strings::{decode_modified_utf8, from_modified_utf8, StringDecodeError};
use crate::rvmti::{
    ClassSignature,
    GetClassSignatureError,
    GetMethodNameError,
    GetSourceFileNameError,
    JClass,
    LineNumberEntry,
    MethodName,
};

verus! {

/// The status with which a call into the tool interface succeeds.
pub const JVMTI_ERROR_NONE: u32 = 0;

/// The status of a call that has no such information to give.
pub const JVMTI_ERROR_ABSENT_INFORMATION: u32 = 101;

/// The status with which a call into the invocation interface succeeds.
pub const JNI_OK: i32 = 0;

/// The text of a string that the virtual machine may have left out, with
/// the empty text for a string left out; none where the bytes are not
/// modified UTF-8.
pub open spec fn text_or_empty(bytes: Option<&[u8]>) -> Option<Seq<char>> {
    match bytes {
        Some(b) => decode_modified_utf8(b@),
        None => Some(Seq::empty()),
    }
}

/// Whether `bytes`, if there are any, are modified UTF-8.
pub open spec fn readable(bytes: Option<&[u8]>) -> bool {
    match bytes {
        Some(b) => decode_modified_utf8(b@) is Some,
        None => true,
    }
}

/// Whether `text` holds what `bytes` stand for, and nothing where there are
/// no bytes.
pub open spec fn holds_text(text: Option<String>, bytes: Option<&[u8]>) -> bool {
    match bytes {
        Some(b) => text matches Some(s) && decode_modified_utf8(b@) == Some(s@),
        None => text is None,
    }
}

/// A call that gives nothing back: it succeeded, or it failed with the
/// error that the status names.
pub fn status(result: u32) -> (r: Result<(), JvmtiError>)
    ensures
        match r {
            Ok(_) => result == JVMTI_ERROR_NONE,
            Err(e) => result != JVMTI_ERROR_NONE && e == JvmtiError::of_code(result),
        },
{
    if result == JVMTI_ERROR_NONE {
        Ok(())
    } else {
        Err(JvmtiError::from(result))
    }
}

/// Reads a string that may have been left out as text, empty when it was.
fn text_of(bytes: Option<&[u8]>) -> (r: Result<String, StringDecodeError>)
    ensures
        match r {
            Ok(s) => text_or_empty(bytes) == Some(s@),
            Err(e) => text_or_empty(bytes) is None && e is ModifiedUtf8Error,
        },
{
    match from_modified_utf8(bytes) {
        Ok(Some(s)) => Ok(s),
        Ok(None) => Ok(String::new()),
        Err(e) => Err(e),
    }
}

/// What `GetMethodName` brought back. A name or a descriptor that was left
/// out is empty. Of several failures the first counts: the status, the
/// name, the descriptor, the generic signature.
pub fn method_name(
    result: u32,
    name: Option<&[u8]>,
    signature: Option<&[u8]>,
    generic_signature: Option<&[u8]>,
) -> (r: Result<MethodName, GetMethodNameError>)
    ensures
        match r {
            Ok(m) => {
                &&& result == JVMTI_ERROR_NONE
                &&& text_or_empty(name) == Some(m.name@)
                &&& text_or_empty(signature) == Some(m.signature@)
                &&& holds_text(m.generic_signature, generic_signature)
            },
            Err(GetMethodNameError::VmError(e)) => result != JVMTI_ERROR_NONE && e
                == JvmtiError::of_code(result),
            Err(GetMethodNameError::NameDecodeError(e)) => result == JVMTI_ERROR_NONE && !readable(
                name,
            ) && e is ModifiedUtf8Error,
            Err(GetMethodNameError::SignatureDecodeError(e)) => result == JVMTI_ERROR_NONE
                && readable(name) && !readable(signature) && e is ModifiedUtf8Error,
            Err(GetMethodNameError::GenericSignatureDecodeError(e)) => result == JVMTI_ERROR_NONE
                && readable(name) && readable(signature) && !readable(generic_signature) && e
                is ModifiedUtf8Error,
        },
{
    if result != JVMTI_ERROR_NONE {
        return Err(GetMethodNameError::VmError(JvmtiError::from(result)));
    }
    let name_string = match text_of(name) {
        Ok(s) => s,
        Err(e) => {
            return Err(GetMethodNameError::NameDecodeError(e));
        },
    };
    let signature_string = match text_of(signature) {
        Ok(s) => s,
        Err(e) => {
            return Err(GetMethodNameError::SignatureDecodeError(e));
        },
    };
    let generic_signature_string = match from_modified_utf8(generic_signature) {
        Ok(s) => s,
        Err(e) => {
            return Err(GetMethodNameError::GenericSignatureDecodeError(e));
        },
    };
    Ok(
        MethodName {
            name: name_string,
            signature: signature_string,
            generic_signature: generic_signature_string,
        },
    )
}

/// What `GetMethodDeclaringClass` brought back.
pub fn declaring_class(result: u32, class: usize) -> (r: Result<JClass, JvmtiError>)
    ensures
        match r {
            Ok(c) => result == JVMTI_ERROR_NONE && c.class == class,
            Err(e) => result != JVMTI_ERROR_NONE && e == JvmtiError::of_code(result),
        },
{
    if result == JVMTI_ERROR_NONE {
        Ok(JClass { class })
    } else {
        Err(JvmtiError::from(result))
    }
}

/// What `GetClassSignature` brought back. A descriptor that was left out is
/// empty. Of several failures the first counts: the status, the descriptor,
/// the generic signature.
pub fn class_signature(
    result: u32,
    signature: Option<&[u8]>,
    generic_signature: Option<&[u8]>,
) -> (r: Result<ClassSignature, GetClassSignatureError>)
    ensures
        match r {
            Ok(c) => {
                &&& result == JVMTI_ERROR_NONE
                &&& text_or_empty(signature) == Some(c.signature@)
                &&& holds_text(c.generic_signature, generic_signature)
            },
            Err(GetClassSignatureError::VmError(e)) => result != JVMTI_ERROR_NONE && e
                == JvmtiError::of_code(result),
            Err(GetClassSignatureError::SignatureDecodeError(e)) => result == JVMTI_ERROR_NONE
                && !readable(signature) && e is ModifiedUtf8Error,
            Err(GetClassSignatureError::GenericSignatureDecodeError(e)) => result
                == JVMTI_ERROR_NONE && readable(signature) && !readable(generic_signature) && e
                is ModifiedUtf8Error,
        },
{
    if result != JVMTI_ERROR_NONE {
        return Err(GetClassSignatureError::VmError(JvmtiError::from(result)));
    }
    let signature_string = match text_of(signature) {
        Ok(s) => s,
        Err(e) => {
            return Err(GetClassSignatureError::SignatureDecodeError(e));
        },
    };
    let generic_signature_string = match from_modified_utf8(generic_signature) {
        Ok(s) => s,
        Err(e) => {
            return Err(GetClassSignatureError::GenericSignatureDecodeError(e));
        },
    };
    Ok(ClassSignature { signature: signature_string, generic_signature: generic_signature_string })
}

/// What `GetSourceFileName` brought back. A class without this information
/// has no source file name, which is no failure.
pub fn source_file_name(result: u32, source_name: Option<&[u8]>) -> (r: Result<
    Option<String>,
    GetSourceFileNameError,
>)
    ensures
        match r {
            Ok(name) => if result == JVMTI_ERROR_NONE {
                holds_text(name, source_name)
            } else {
                result == JVMTI_ERROR_ABSENT_INFORMATION && name is None
            },
            Err(GetSourceFileNameError::VmError(e)) => result != JVMTI_ERROR_NONE && result
                != JVMTI_ERROR_ABSENT_INFORMATION && e == JvmtiError::of_code(result),
            Err(GetSourceFileNameError::SourceFileNameDecodeError(e)) => result
                == JVMTI_ERROR_NONE && !readable(source_name) && e is ModifiedUtf8Error,
        },
{
    if result == JVMTI_ERROR_NONE {
        match from_modified_utf8(source_name) {
            Ok(s) => Ok(s),
            Err(e) => Err(GetSourceFileNameError::SourceFileNameDecodeError(e)),
        }
    } else if result == JVMTI_ERROR_ABSENT_INFORMATION {
        Ok(None)
    } else {
        Err(GetSourceFileNameError::VmError(JvmtiError::from(result)))
    }
}

/// What `GetLineNumberTable` brought back. A method without this
/// information has no table, which is no failure, and a table without rows
/// counts as no table.
pub fn line_number_table(result: u32, table: Option<&[LineNumberEntry]>) -> (r: Result<
    Option<Vec<LineNumberEntry>>,
    JvmtiError,
>)
    ensures
        match r {
            Ok(Some(rows)) => {
                &&& result == JVMTI_ERROR_NONE
                &&& table matches Some(t) && t@.len() > 0 && rows@ == t@
            },
            Ok(None) => if result == JVMTI_ERROR_NONE {
                match table {
                    Some(t) => t@.len() == 0,
                    None => true,
                }
            } else {
                result == JVMTI_ERROR_ABSENT_INFORMATION
            },
            Err(e) => result != JVMTI_ERROR_NONE && result != JVMTI_ERROR_ABSENT_INFORMATION && e
                == JvmtiError::of_code(result),
        },
{
    if result == JVMTI_ERROR_NONE {
        match table {
            Some(t) => {
                if t.len() == 0 {
                    return Ok(None);
                }
                let mut rows: Vec<LineNumberEntry> = Vec::new();
                let mut i: usize = 0;
                while i < t.len()
                    invariant
                        i <= t.len(),
                        rows@ == t@.take(i as int),
                    decreases t.len() - i,
                {
                    rows.push(t[i]);
                    i += 1;
                }
                Ok(Some(rows))
            },
            None => Ok(None),
        }
    } else if result == JVMTI_ERROR_ABSENT_INFORMATION {
        Ok(None)
    } else {
        Err(JvmtiError::from(result))
    }
}

/// What `IsMethodNative` brought back.
pub fn is_method_native(result: u32, is_native: u8) -> (r: Result<bool, JvmtiError>)
    ensures
        match r {
            Ok(native) => result == JVMTI_ERROR_NONE && native == (is_native != 0),
            Err(e) => result != JVMTI_ERROR_NONE && e == JvmtiError::of_code(result),
        },
{
    if result == JVMTI_ERROR_NONE {
        Ok(is_native != 0)
    } else {
        Err(JvmtiError::from(result))
    }
}

/// What `GetEnv` brought back: the address of the environment. Success
/// without an environment is an error that the interface does not name.
pub fn environment(result: i32, env: usize) -> (r: Result<usize, JniError>)
    ensures
        match r {
            Ok(address) => result == JNI_OK && env != 0 && address == env,
            Err(e) => if result == JNI_OK {
                env == 0 && e == JniError::UnknownError
            } else {
                e == JniError::of_code(result)
            },
        },
{
    if result == JNI_OK {
        if env != 0 {
            Ok(env)
        } else {
            Err(JniError::UnknownError)
        }
    } else {
        Err(JniError::from(result))
    }
}

} // verus!
