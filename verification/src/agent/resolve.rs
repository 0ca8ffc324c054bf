//! Finding out about a method, one call into the virtual machine at a time.
//!
//! The calls themselves are made elsewhere. Here is what is asked next and
//! what an answer leads to: the next question, the finished result, or the
//! failure that ends the matter.
use vstd::prelude::*;
use crate::agent::{ClassInfo, ClassInfoError, MethodInfo, MethodInfoError};
use crate::rvmti::{
    ClassSignature,
    GetClassSignatureError,
    GetMethodNameError,
    GetSourceFileNameError,
    JClass,
    JMethodId,
    JvmtiError,
    LineNumberEntry,
    MethodName,
};

verus! {

/// A question to the virtual machine.
#[derive(Debug, Clone, Copy, PartialEq, Eq, Structural)]
pub enum VmCall {
    GetMethodName(JMethodId),
    GetMethodDeclaringClass(JMethodId),
    GetClassSignature(JClass),
    GetSourceFileName(JClass),
    IsMethodNative(JMethodId),
    GetLineNumberTable(JMethodId),
}

/// An answer of the virtual machine.
#[derive(Debug)]
pub enum VmReply {
    MethodName(Result<MethodName, GetMethodNameError>),
    MethodDeclaringClass(Result<JClass, JvmtiError>),
    ClassSignature(Result<ClassSignature, GetClassSignatureError>),
    SourceFileName(Result<Option<String>, GetSourceFileNameError>),
    MethodNative(Result<bool, JvmtiError>),
    LineNumberTable(Result<Option<Vec<LineNumberEntry>>, JvmtiError>),
}

impl VmReply {
    /// Whether this is an answer to the question `call`.
    pub open spec fn answers(self, call: VmCall) -> bool {
        match (call, self) {
            (VmCall::GetMethodName(_), VmReply::MethodName(_)) => true,
            (VmCall::GetMethodDeclaringClass(_), VmReply::MethodDeclaringClass(_)) => true,
            (VmCall::GetClassSignature(_), VmReply::ClassSignature(_)) => true,
            (VmCall::GetSourceFileName(_), VmReply::SourceFileName(_)) => true,
            (VmCall::IsMethodNative(_), VmReply::MethodNative(_)) => true,
            (VmCall::GetLineNumberTable(_), VmReply::LineNumberTable(_)) => true,
            _ => false,
        }
    }
}

/// How far the questions about a class have come.
#[derive(Debug)]
pub enum ClassInfoQuery {
    /// The signature is asked for.
    Signature { class: JClass },
    /// The signature is known and the source file name is asked for.
    SourceFileName { class: JClass, signature: ClassSignature },
}

/// What an answer about a class leads to.
#[derive(Debug)]
pub enum ClassInfoStep {
    /// Another question.
    Next(ClassInfoQuery),
    /// All that was to be known.
    Done(ClassInfo),
    /// A failure.
    Failed(ClassInfoError),
}

impl ClassInfoQuery {
    /// The question that is open.
    pub open spec fn pending(self) -> VmCall {
        match self {
            ClassInfoQuery::Signature { class } => VmCall::GetClassSignature(class),
            ClassInfoQuery::SourceFileName { class, .. } => VmCall::GetSourceFileName(class),
        }
    }

    /// The first question about `class`.
    pub fn new(class: JClass) -> (query: ClassInfoQuery)
        ensures
            query == (ClassInfoQuery::Signature { class }),
    {
        ClassInfoQuery::Signature { class }
    }

    /// The question that is open.
    pub fn call(&self) -> (call: VmCall)
        ensures
            call == self.pending(),
    {
        match self {
            ClassInfoQuery::Signature { class } => VmCall::GetClassSignature(*class),
            ClassInfoQuery::SourceFileName { class, .. } => VmCall::GetSourceFileName(*class),
        }
    }
}

/// What the answer `reply` to the open question of `query` leads to. First
/// the signature is asked for, then the name of the source file; a failure
/// of either ends the matter. An answer to another question changes
/// nothing: the question stays open.
pub open spec fn class_info_step(query: ClassInfoQuery, reply: VmReply) -> ClassInfoStep {
    match (query, reply) {
        (ClassInfoQuery::Signature { class }, VmReply::ClassSignature(Ok(signature))) =>
            ClassInfoStep::Next(ClassInfoQuery::SourceFileName { class, signature }),
        (ClassInfoQuery::Signature { class }, VmReply::ClassSignature(Err(e))) =>
            ClassInfoStep::Failed(ClassInfoError::UnableToGetClassSignature(e)),
        (
            ClassInfoQuery::SourceFileName { class, signature },
            VmReply::SourceFileName(Ok(source_file_name)),
        ) => ClassInfoStep::Done(ClassInfo { signature, source_file_name }),
        (ClassInfoQuery::SourceFileName { class, signature }, VmReply::SourceFileName(Err(e))) =>
            ClassInfoStep::Failed(ClassInfoError::UnableToGetClassSourceFileName(e)),
        _ => ClassInfoStep::Next(query),
    }
}

/// Takes the virtual machine's answer to the open question about a class.
pub fn class_info(query: ClassInfoQuery, reply: VmReply) -> (step: ClassInfoStep)
    ensures
        step == class_info_step(query, reply),
{
    match query {
        ClassInfoQuery::Signature { class } => match reply {
            VmReply::ClassSignature(Ok(signature)) => ClassInfoStep::Next(
                ClassInfoQuery::SourceFileName { class, signature },
            ),
            VmReply::ClassSignature(Err(e)) => ClassInfoStep::Failed(
                ClassInfoError::UnableToGetClassSignature(e),
            ),
            _ => ClassInfoStep::Next(ClassInfoQuery::Signature { class }),
        },
        ClassInfoQuery::SourceFileName { class, signature } => match reply {
            VmReply::SourceFileName(Ok(source_file_name)) => ClassInfoStep::Done(
                ClassInfo { signature, source_file_name },
            ),
            VmReply::SourceFileName(Err(e)) => ClassInfoStep::Failed(
                ClassInfoError::UnableToGetClassSourceFileName(e),
            ),
            _ => ClassInfoStep::Next(ClassInfoQuery::SourceFileName { class, signature }),
        },
    }
}

/// How far the questions about a method have come.
#[derive(Debug)]
#[allow(inconsistent_fields)]
pub enum MethodInfoQuery {
    /// The name is asked for.
    Name { method: JMethodId },
    /// The name is known and the declaring class is asked for.
    DeclaringClass { method: JMethodId, name: MethodName },
    /// The class is known and asked about.
    Class { method: JMethodId, name: MethodName, class: ClassInfoQuery },
    /// All is known of the class, and whether the method is native is asked.
    Native { method: JMethodId, name: MethodName, class: ClassInfo },
    /// The method is not native and its line numbers are asked for.
    LineNumbers { method: JMethodId, name: MethodName, class: ClassInfo },
}

/// What an answer about a method leads to.
#[derive(Debug)]
pub enum MethodInfoStep {
    /// Another question.
    Next(MethodInfoQuery),
    /// All that was to be known.
    Done(MethodInfo),
    /// A failure.
    Failed(MethodInfoError),
}

impl MethodInfoQuery {
    /// The question that is open.
    pub open spec fn pending(self) -> VmCall {
        match self {
            MethodInfoQuery::Name { method } => VmCall::GetMethodName(method),
            MethodInfoQuery::DeclaringClass { method, .. } => VmCall::GetMethodDeclaringClass(
                method,
            ),
            MethodInfoQuery::Class { class, .. } => class.pending(),
            MethodInfoQuery::Native { method, .. } => VmCall::IsMethodNative(method),
            MethodInfoQuery::LineNumbers { method, .. } => VmCall::GetLineNumberTable(method),
        }
    }

    /// The method that is asked about.
    pub open spec fn method(self) -> JMethodId {
        match self {
            MethodInfoQuery::Name { method } => method,
            MethodInfoQuery::DeclaringClass { method, .. } => method,
            MethodInfoQuery::Class { method, .. } => method,
            MethodInfoQuery::Native { method, .. } => method,
            MethodInfoQuery::LineNumbers { method, .. } => method,
        }
    }

    /// The first question about `method`.
    pub fn new(method: JMethodId) -> (query: MethodInfoQuery)
        ensures
            query == (MethodInfoQuery::Name { method }),
    {
        MethodInfoQuery::Name { method }
    }

    /// The question that is open.
    pub fn call(&self) -> (call: VmCall)
        ensures
            call == self.pending(),
    {
        match self {
            MethodInfoQuery::Name { method } => VmCall::GetMethodName(*method),
            MethodInfoQuery::DeclaringClass { method, .. } => VmCall::GetMethodDeclaringClass(
                *method,
            ),
            MethodInfoQuery::Class { class, .. } => class.call(),
            MethodInfoQuery::Native { method, .. } => VmCall::IsMethodNative(*method),
            MethodInfoQuery::LineNumbers { method, .. } => VmCall::GetLineNumberTable(*method),
        }
    }
}

/// What an answer about the class of a method leads to for the method.
pub open spec fn after_class_step(
    method: JMethodId,
    name: MethodName,
    step: ClassInfoStep,
) -> MethodInfoStep {
    match step {
        ClassInfoStep::Next(class) => MethodInfoStep::Next(
            MethodInfoQuery::Class { method, name, class },
        ),
        ClassInfoStep::Done(class) => MethodInfoStep::Next(
            MethodInfoQuery::Native { method, name, class },
        ),
        ClassInfoStep::Failed(e) => MethodInfoStep::Failed(
            MethodInfoError::UnableToGetDeclaringClassInfo(e),
        ),
    }
}

/// What the answer `reply` to the open question of `query` leads to. The
/// questions go in this order: the method's name, its declaring class, that
/// class's signature and source file, whether the method is native, and,
/// only if it is not, its line numbers. A native method is done without
/// line numbers. A failure ends the matter with the error of its question.
/// An answer to another question changes nothing.
pub open spec fn method_info_step(query: MethodInfoQuery, reply: VmReply) -> MethodInfoStep {
    match (query, reply) {
        (MethodInfoQuery::Name { method }, VmReply::MethodName(Ok(name))) => MethodInfoStep::Next(
            MethodInfoQuery::DeclaringClass { method, name },
        ),
        (MethodInfoQuery::Name { method }, VmReply::MethodName(Err(e))) => MethodInfoStep::Failed(
            MethodInfoError::UnableToGetMethodName(e),
        ),
        (
            MethodInfoQuery::DeclaringClass { method, name },
            VmReply::MethodDeclaringClass(Ok(class)),
        ) => MethodInfoStep::Next(
            MethodInfoQuery::Class { method, name, class: ClassInfoQuery::Signature { class } },
        ),
        (MethodInfoQuery::DeclaringClass { method, name }, VmReply::MethodDeclaringClass(Err(e))) =>
            MethodInfoStep::Failed(MethodInfoError::UnableToGetMethodDeclaringClass(e)),
        (MethodInfoQuery::Class { method, name, class }, _) => after_class_step(
            method,
            name,
            class_info_step(class, reply),
        ),
        (MethodInfoQuery::Native { method, name, class }, VmReply::MethodNative(Ok(native))) =>
            if native {
            MethodInfoStep::Done(
                MethodInfo { name, class, native_method: true, line_numbers: None },
            )
        } else {
            MethodInfoStep::Next(MethodInfoQuery::LineNumbers { method, name, class })
        },
        (MethodInfoQuery::Native { method, name, class }, VmReply::MethodNative(Err(e))) =>
            MethodInfoStep::Failed(MethodInfoError::UnableToCheckIfMethodIsNative(e)),
        (
            MethodInfoQuery::LineNumbers { method, name, class },
            VmReply::LineNumberTable(Ok(line_numbers)),
        ) => MethodInfoStep::Done(MethodInfo { name, class, native_method: false, line_numbers }),
        (MethodInfoQuery::LineNumbers { method, name, class }, VmReply::LineNumberTable(Err(e))) =>
            MethodInfoStep::Failed(MethodInfoError::UnableToGetMethodLineNumbers(e)),
        _ => MethodInfoStep::Next(query),
    }
}

/// Takes the virtual machine's answer to the open question about a method.
pub fn method_info(query: MethodInfoQuery, reply: VmReply) -> (step: MethodInfoStep)
    ensures
        step == method_info_step(query, reply),
        step matches MethodInfoStep::Next(next) ==> next.method() == query.method(),
        step matches MethodInfoStep::Done(info) ==> info.well_formed(),
{
    match query {
        MethodInfoQuery::Name { method } => match reply {
            VmReply::MethodName(Ok(name)) => MethodInfoStep::Next(
                MethodInfoQuery::DeclaringClass { method, name },
            ),
            VmReply::MethodName(Err(e)) => MethodInfoStep::Failed(
                MethodInfoError::UnableToGetMethodName(e),
            ),
            _ => MethodInfoStep::Next(MethodInfoQuery::Name { method }),
        },
        MethodInfoQuery::DeclaringClass { method, name } => match reply {
            VmReply::MethodDeclaringClass(Ok(class)) => MethodInfoStep::Next(
                MethodInfoQuery::Class { method, name, class: ClassInfoQuery::new(class) },
            ),
            VmReply::MethodDeclaringClass(Err(e)) => MethodInfoStep::Failed(
                MethodInfoError::UnableToGetMethodDeclaringClass(e),
            ),
            _ => MethodInfoStep::Next(MethodInfoQuery::DeclaringClass { method, name }),
        },
        MethodInfoQuery::Class { method, name, class } => {
            match class_info(class, reply) {
                ClassInfoStep::Next(class) => MethodInfoStep::Next(
                    MethodInfoQuery::Class { method, name, class },
                ),
                ClassInfoStep::Done(class) => MethodInfoStep::Next(
                    MethodInfoQuery::Native { method, name, class },
                ),
                ClassInfoStep::Failed(e) => MethodInfoStep::Failed(
                    MethodInfoError::UnableToGetDeclaringClassInfo(e),
                ),
            }
        },
        MethodInfoQuery::Native { method, name, class } => match reply {
            VmReply::MethodNative(Ok(native)) => {
                if native {
                    MethodInfoStep::Done(
                        MethodInfo { name, class, native_method: true, line_numbers: None },
                    )
                } else {
                    MethodInfoStep::Next(MethodInfoQuery::LineNumbers { method, name, class })
                }
            },
            VmReply::MethodNative(Err(e)) => MethodInfoStep::Failed(
                MethodInfoError::UnableToCheckIfMethodIsNative(e),
            ),
            _ => MethodInfoStep::Next(MethodInfoQuery::Native { method, name, class }),
        },
        MethodInfoQuery::LineNumbers { method, name, class } => match reply {
            VmReply::LineNumberTable(Ok(line_numbers)) => MethodInfoStep::Done(
                MethodInfo { name, class, native_method: false, line_numbers },
            ),
            VmReply::LineNumberTable(Err(e)) => MethodInfoStep::Failed(
                MethodInfoError::UnableToGetMethodLineNumbers(e),
            ),
            _ => MethodInfoStep::Next(MethodInfoQuery::LineNumbers { method, name, class }),
        },
    }
}

impl ClassInfoQuery {
    /// How many answers at most are still needed.
    pub open spec fn questions_left(self) -> nat {
        match self {
            ClassInfoQuery::Signature { .. } => 2,
            ClassInfoQuery::SourceFileName { .. } => 1,
        }
    }
}

impl MethodInfoQuery {
    /// How many answers at most are still needed.
    pub open spec fn questions_left(self) -> nat {
        match self {
            MethodInfoQuery::Name { .. } => 6,
            MethodInfoQuery::DeclaringClass { .. } => 5,
            MethodInfoQuery::Class { class, .. } => 2 + class.questions_left(),
            MethodInfoQuery::Native { .. } => 2,
            MethodInfoQuery::LineNumbers { .. } => 1,
        }
    }
}

/// Every answer to the open question brings the matter forward: after it
/// fewer answers are needed than before, so that a method is known, or known
/// to be out of reach, after six answers at most. An answer to another
/// question leaves everything as it was.
pub proof fn lemma_method_info_progress(query: MethodInfoQuery, reply: VmReply)
    ensures
        reply.answers(query.pending()) ==> (method_info_step(query, reply) matches MethodInfoStep::Next(
            next,
        ) ==> next.questions_left() < query.questions_left()),
        !reply.answers(query.pending()) ==> method_info_step(query, reply) == MethodInfoStep::Next(
            query,
        ),
{
}

} // verus!
