//! Where the dump goes: the names of its directory and of its file, and
//! what to do when a directory cannot be made.
use chrono::Local;
use rand::distributions::Alphanumeric;
use rand::{thread_rng, Rng};
use vstd::prelude::*;
use vstd::string::StringExecFns;
use crate::text::{push_char, push_signed_decimal, signed_decimal};

verus! {

/// How often a directory name is tried before the search is given up.
pub const MAX_DIR_ATTEMPTS: u32 = 0x8000_0000;

/// How many characters the random part of a directory name has.
pub const SUFFIX_LENGTH: usize = 8;

/// Why the directory of the dump could not be made.
#[derive(Debug)]
pub enum CreteDumpDirError {
    /// The operating system refused.
    IoError(std::io::Error),
    /// Every name that was tried was taken.
    DirNameConflict,
}

/// What an attempt to make the directory brought.
#[derive(Debug)]
pub enum DirAttempt {
    /// The directory was made.
    Created,
    /// There is a directory of that name already.
    AlreadyExists,
    /// The operating system refused for another reason.
    Failed(std::io::Error),
}

/// What to do after an attempt to make the directory.
#[derive(Debug)]
pub enum DirStep {
    /// The directory is there.
    Done,
    /// Try another name.
    Retry,
    /// Give up.
    GiveUp(CreteDumpDirError),
}

/// Whether `c` is an ASCII letter or digit.
pub open spec fn is_alphanumeric(c: char) -> bool {
    ('a' <= c && c <= 'z') || ('A' <= c && c <= 'Z') || ('0' <= c && c <= '9')
}

/// `Rng::sample` of rand, with `Alphanumeric`, on the generator of the
/// calling thread: a random ASCII letter or digit. Where the operating
/// system gives no entropy to start the generator with, the call panics.
#[verifier::external_body]
fn random_alphanumeric() -> (c: char)
    ensures
        is_alphanumeric(c),
{
    thread_rng().sample(Alphanumeric)
}

/// Whether `c` is an ASCII digit.
pub open spec fn is_digit(c: char) -> bool {
    '0' <= c && c <= '9'
}

/// Whether `text` is a date as year, month and day without anything
/// between them: at least four digits of year and two each of month and
/// day, and before them a sign where the year needs one.
pub open spec fn is_date_stamp(text: Seq<char>) -> bool {
    &&& text.len() >= 8
    &&& is_digit(text[0]) || ((text[0] == '+' || text[0] == '-') && text.len() >= 9)
    &&& forall|i: int| 1 <= i < text.len() ==> is_digit(#[trigger] text[i])
}

/// `DateTime::format` of chrono on `Local::now()`: the local date of today,
/// written as `format` asks, which is the year padded with zeros to four
/// digits, with a sign in front where it lies outside 0 to 9999, and the
/// month and the day padded to two digits each. Where the system's clock
/// stands before 1970, or the data of the time zone cannot be used, the
/// call panics.
#[verifier::external_body]
fn local_time_text(format: &str) -> (text: String)
    requires
        format@ == "%Y%m%d"@,
    ensures
        is_date_stamp(text@),
{
    Local::now().format(format).to_string()
}

/// The name of the dump's directory for a date and a random part.
pub open spec fn dump_dir_name_of(date: Seq<char>, suffix: Seq<char>) -> Seq<char> {
    "java-jit-"@ + date + seq!['.'] + suffix
}

/// The name of the dump's file for a process.
pub open spec fn dump_file_name_of(pid: i32) -> Seq<char> {
    "jit-"@ + signed_decimal(pid as int) + ".dump"@
}

/// Eight random ASCII letters and digits.
pub fn random_suffix() -> (suffix: String)
    ensures
        suffix@.len() == SUFFIX_LENGTH,
        forall|i: int| 0 <= i < suffix@.len() ==> is_alphanumeric(suffix@[i]),
{
    let mut suffix = String::new();
    let mut i: usize = 0;
    while i < SUFFIX_LENGTH
        invariant
            i <= SUFFIX_LENGTH,
            suffix@.len() == i,
            forall|j: int| 0 <= j < suffix@.len() ==> is_alphanumeric(suffix@[j]),
        decreases SUFFIX_LENGTH - i,
    {
        push_char(&mut suffix, random_alphanumeric());
        i += 1;
    }
    suffix
}

/// The name of the dump's directory for `date` and the random part
/// `suffix`: `java-jit-`, the date, a dot, the random part.
pub fn dump_dir_name(date: &str, suffix: &str) -> (name: String)
    ensures
        name@ == dump_dir_name_of(date@, suffix@),
{
    let mut name = String::from_str("java-jit-");
    name.append(date);
    push_char(&mut name, '.');
    name.append(suffix);
    name
}

/// A name for the dump's directory, with today's date and a fresh random
/// part.
pub fn dump_dir_candidate() -> (name: String)
    ensures
        exists|date: Seq<char>, suffix: Seq<char>|
            {
                &&& name@ == #[trigger] dump_dir_name_of(date, suffix)
                &&& is_date_stamp(date)
                &&& suffix.len() == SUFFIX_LENGTH
                &&& forall|i: int| 0 <= i < suffix.len() ==> is_alphanumeric(suffix[i])
            },
{
    let date = local_time_text("%Y%m%d");
    let suffix = random_suffix();
    let name = dump_dir_name(date.as_str(), suffix.as_str());
    name
}

/// The name of the dump's file for process `pid`: `jit-`, the process id,
/// `.dump`.
pub fn dump_file_name(pid: i32) -> (name: String)
    ensures
        name@ == dump_file_name_of(pid),
{
    let mut name = String::from_str("jit-");
    push_signed_decimal(&mut name, pid as i64);
    name.append(".dump");
    name
}

/// What to do after the attempt with number `attempts_made`, counted from
/// one, to make the directory. A name that is taken is answered with
/// another name, until as many names were tried as may be; any other
/// refusal ends the search.
pub fn after_dir_attempt(attempts_made: u32, outcome: DirAttempt) -> (step: DirStep)
    ensures
        match outcome {
            DirAttempt::Created => step is Done,
            DirAttempt::AlreadyExists => if attempts_made < MAX_DIR_ATTEMPTS {
                step is Retry
            } else {
                step matches DirStep::GiveUp(CreteDumpDirError::DirNameConflict)
            },
            DirAttempt::Failed(e) => step matches DirStep::GiveUp(CreteDumpDirError::IoError(f))
                && f == e,
        },
{
    match outcome {
        DirAttempt::Created => DirStep::Done,
        DirAttempt::AlreadyExists => {
            if attempts_made < MAX_DIR_ATTEMPTS {
                DirStep::Retry
            } else {
                DirStep::GiveUp(CreteDumpDirError::DirNameConflict)
            }
        },
        DirAttempt::Failed(e) => DirStep::GiveUp(CreteDumpDirError::IoError(e)),
    }
}

} // verus!
