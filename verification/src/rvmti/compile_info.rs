//! What the compiler tells about a compiled method, from the records as the
//! virtual machine lays them out to the records that the agent works with.
use vstd::prelude::*;
use crate::rvmti::{
    record_views,
    stack_views,
    AddressLocationEntry,
    CompiledMethodLoadRecord,
    CompiledMethodLoadRecordView,
    JMethodId,
    StackFrame,
    StackInfo,
    StackInfoView,
};

verus! {

/// The major version of the record layout that this library reads.
pub const JVMTI_CMLR_MAJOR_VERSION: i32 = 1;

/// The minor version of the record layout that this library reads.
pub const JVMTI_CMLR_MINOR_VERSION: i32 = 0;

/// The kind of a record that carries nothing.
pub const JVMTI_CMLR_DUMMY: u32 = 1;

/// The kind of a record that carries inlining stacks.
pub const JVMTI_CMLR_INLINE_INFO: u32 = 2;

/// An inlining stack as the virtual machine lays it out: an address, the
/// number of frames, and what the two arrays of that length hold, which is
/// nothing where the machine gave no array.
#[derive(Debug)]
pub struct PcStackInfo {
    pub pc: usize,
    pub numstackframes: i32,
    pub methods: Vec<usize>,
    pub bcis: Vec<i32>,
}

/// The head of a record as the virtual machine lays it out, and the stacks
/// that follow the head of a record with inlining stacks.
#[derive(Debug)]
pub struct CompiledMethodLoadRecordHeader {
    pub kind: u32,
    pub majorinfoversion: i32,
    pub minorinfoversion: i32,
    pub pcinfo: Vec<PcStackInfo>,
}

impl PcStackInfo {
    /// Whether the arrays hold as many frames as the stack says it has.
    pub open spec fn well_formed(&self) -> bool {
        self.numstackframes > 0 ==> self.methods@.len() >= self.numstackframes && self.bcis@.len()
            >= self.numstackframes
    }

    /// The number of frames of the stack; none where the count is not
    /// positive.
    pub open spec fn frame_count(&self) -> nat {
        if self.numstackframes > 0 {
            self.numstackframes as nat
        } else {
            0
        }
    }

    /// The frames of the stack, innermost first: method and bytecode index
    /// pair up by position.
    pub open spec fn frames(&self) -> Seq<StackFrame> {
        Seq::new(
            self.frame_count(),
            |i: int|
                StackFrame {
                    method_id: JMethodId { method: self.methods@[i] },
                    byte_code_index: self.bcis@[i],
                },
        )
    }
}

impl CompiledMethodLoadRecordHeader {
    /// Whether every stack of the record is well formed.
    pub open spec fn well_formed(&self) -> bool {
        forall|i: int| 0 <= i < self.pcinfo@.len() ==> (#[trigger] self.pcinfo@[i]).well_formed()
    }

    /// Whether the record is read: it has the version that this library
    /// reads and a kind that it knows.
    pub open spec fn is_read(&self) -> bool {
        &&& self.majorinfoversion == JVMTI_CMLR_MAJOR_VERSION
        &&& self.minorinfoversion == JVMTI_CMLR_MINOR_VERSION
        &&& (self.kind == JVMTI_CMLR_DUMMY || self.kind == JVMTI_CMLR_INLINE_INFO)
    }
}

/// The stacks of a record, each with its address and its frames.
pub open spec fn stacks_of(pcinfo: Seq<PcStackInfo>) -> Seq<StackInfoView> {
    Seq::new(
        pcinfo.len(),
        |i: int| StackInfoView { pc_address: pcinfo[i].pc, stack_frames: pcinfo[i].frames() },
    )
}

/// What the agent makes of records as the virtual machine lays them out:
/// the records that are read, in order, each by its kind.
pub open spec fn compile_infos_of(raw: Seq<CompiledMethodLoadRecordHeader>) -> Seq<
    CompiledMethodLoadRecordView,
>
    decreases raw.len(),
{
    if raw.len() == 0 {
        Seq::empty()
    } else if !raw.last().is_read() {
        compile_infos_of(raw.drop_last())
    } else if raw.last().kind == JVMTI_CMLR_DUMMY {
        compile_infos_of(raw.drop_last()).push(CompiledMethodLoadRecordView::Dummy)
    } else {
        compile_infos_of(raw.drop_last()).push(
            CompiledMethodLoadRecordView::Inline { stack_infos: stacks_of(raw.last().pcinfo@) },
        )
    }
}

/// The frames of one stack.
fn stack_frames_of(info: &PcStackInfo) -> (frames: Vec<StackFrame>)
    requires
        info.well_formed(),
    ensures
        frames@ == info.frames(),
{
    let mut frames: Vec<StackFrame> = Vec::new();
    if info.numstackframes > 0 {
        let count = info.numstackframes as usize;
        let mut i: usize = 0;
        while i < count
            invariant
                i <= count == info.numstackframes,
                info.well_formed(),
                frames@ == info.frames().take(i as int),
            decreases count - i,
        {
            frames.push(
                StackFrame {
                    method_id: JMethodId { method: info.methods[i] },
                    byte_code_index: info.bcis[i],
                },
            );
            i += 1;
        }
    }
    frames
}

/// The records of a compiled method. Without records from the virtual
/// machine there are none. A record of another version than the one that
/// this library reads, or of a kind that it does not know, is passed over.
pub fn to_compile_infos(compile_info: Option<&Vec<CompiledMethodLoadRecordHeader>>) -> (result:
    Option<Vec<CompiledMethodLoadRecord>>)
    requires
        compile_info matches Some(raw) ==> forall|i: int|
            0 <= i < raw@.len() ==> (#[trigger] raw@[i]).well_formed(),
    ensures
        match compile_info {
            None => result is None,
            Some(raw) => result matches Some(records) && record_views(records@)
                == compile_infos_of(raw@),
        },
{
    let raw = match compile_info {
        Some(raw) => raw,
        None => {
            return None;
        },
    };
    let mut records: Vec<CompiledMethodLoadRecord> = Vec::new();
    let mut i: usize = 0;
    while i < raw.len()
        invariant
            i <= raw.len(),
            forall|j: int| 0 <= j < raw@.len() ==> (#[trigger] raw@[j]).well_formed(),
            record_views(records@) == compile_infos_of(raw@.take(i as int)),
        decreases raw.len() - i,
    {
        let record = &raw[i];
        assert(raw@.take(i + 1).drop_last() =~= raw@.take(i as int));
        if record.majorinfoversion == JVMTI_CMLR_MAJOR_VERSION && record.minorinfoversion
            == JVMTI_CMLR_MINOR_VERSION {
            if record.kind == JVMTI_CMLR_DUMMY {
                records.push(CompiledMethodLoadRecord::Dummy);
            } else if record.kind == JVMTI_CMLR_INLINE_INFO {
                let mut stack_infos: Vec<StackInfo> = Vec::new();
                let mut j: usize = 0;
                while j < record.pcinfo.len()
                    invariant
                        j <= record.pcinfo.len(),
                        record.well_formed(),
                        stack_views(stack_infos@) == stacks_of(record.pcinfo@).take(j as int),
                    decreases record.pcinfo.len() - j,
                {
                    let info = &record.pcinfo[j];
                    let stack_frames = stack_frames_of(info);
                    let ghost earlier = stack_views(stack_infos@);
                    let stack = StackInfo { pc_address: info.pc, stack_frames };
                    let ghost added = stack@;
                    stack_infos.push(stack);
                    assert(stack_views(stack_infos@) =~= earlier.push(added));
                    j += 1;
                }
                assert(stacks_of(record.pcinfo@).take(record.pcinfo.len() as int) =~= stacks_of(
                    record.pcinfo@,
                ));
                records.push(CompiledMethodLoadRecord::Inline { stack_infos });
            }
        }
        i += 1;
    }
    assert(raw@.take(raw.len() as int) =~= raw@);
    Some(records)
}

/// The address locations of a compiled method. A table without rows counts
/// as no table.
pub fn address_locations(map: Option<&[AddressLocationEntry]>) -> (result: Option<
    Vec<AddressLocationEntry>,
>)
    ensures
        match result {
            Some(rows) => map matches Some(m) && m@.len() > 0 && rows@ == m@,
            None => match map {
                Some(m) => m@.len() == 0,
                None => true,
            },
        },
{
    match map {
        Some(m) => {
            if m.len() == 0 {
                return None;
            }
            let mut rows: Vec<AddressLocationEntry> = Vec::new();
            let mut i: usize = 0;
            while i < m.len()
                invariant
                    i <= m.len(),
                    rows@ == m@.take(i as int),
                decreases m.len() - i,
            {
                rows.push(m[i]);
                i += 1;
            }
            Some(rows)
        },
        None => None,
    }
}

} // verus!
