//! The jitdump stream: record layout, debug entries and line lookup.
use vstd::prelude::*;

pub mod bytes;
pub mod dump_dir;
pub mod dump_file;
pub mod laws;
pub mod lines;
pub mod records;

verus! {

/// The order in which the bytes of an integer stand in the stream.
#[derive(Debug, Clone, Copy, PartialEq, Eq, Structural)]
pub enum Endianness {
    /// Least significant byte first.
    Little,
    /// Most significant byte first.
    Big,
}

/// The error of an operation of the operating system on files.
#[verifier::external_type_specification]
#[verifier::external_body]
pub struct ExIoError(std::io::Error);

/// The error number of a call into the operating system.
#[verifier::external_type_specification]
#[verifier::external_body]
pub struct ExErrno(nix::errno::Errno);

/// Why the machine of the running program could not be told.
#[derive(Debug)]
pub enum GetEMachineError {
    /// The program's file could not be read.
    IoError(std::io::Error),
    /// The program's file is no ELF file.
    NotAnElfFile,
}

/// Why the file header could not be written.
#[derive(Debug)]
pub enum WriteHeaderError {
    /// The file could not be written. The stream in memory never fails so;
    /// this is for the caller that puts the stream into the file.
    IoError(std::io::Error),
    /// The machine of the running program could not be told.
    FailedToGetEMachine(GetEMachineError),
    /// The clock could not be read.
    FailedToGetTimestamp(nix::errno::Errno),
}

/// Why a record could not be written.
#[derive(Debug)]
pub enum WriteRecordError {
    /// The file could not be written. The stream in memory never fails so;
    /// this is for the caller that puts the stream into the file.
    IoError(std::io::Error),
    /// The clock could not be read.
    FailedToGetTimestamp(nix::errno::Errno),
    /// The record is larger than its size field can tell.
    RecordTooLarge,
}

/// Why the dump's file could not be made.
#[derive(Debug)]
pub enum NewDumpFileError {
    /// The file could not be made.
    IoError(std::io::Error),
    /// The file could not be mapped into memory.
    MmapError(nix::errno::Errno),
    /// The size of a memory page could not be asked for.
    SysconfError(nix::errno::Errno),
    /// The system does not tell the size of a memory page.
    UnknownPageSize,
}

} // verus!
