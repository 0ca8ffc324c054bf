//! Resolving the inlining stacks of a compiled method: every frame's method
//! is asked about in turn, stack after stack, innermost frame first.
use vstd::prelude::*;
use crate::agent::resolve::{
    method_info,
    method_info_step,
    MethodInfoQuery,
    MethodInfoStep,
    VmCall,
    VmReply,
};
use crate::agent::{stack_info_views, StackFrameInfo, StackInfo, StackInfoError, StackInfoView};
use crate::rvmti::{stack_views, CompiledMethodLoadRecord, StackFrame};

verus! {

/// The inlining stacks that `records` hold, in the order of the records:
/// those of the records with inlining information, and nothing for the
/// others.
pub open spec fn inline_stacks_of(records: Seq<CompiledMethodLoadRecord>) -> Seq<
    crate::rvmti::StackInfo,
>
    decreases records.len(),
{
    if records.len() == 0 {
        Seq::empty()
    } else {
        let before = inline_stacks_of(records.drop_last());
        match records.last() {
            CompiledMethodLoadRecord::Inline { stack_infos } => before + stack_infos@,
            CompiledMethodLoadRecord::Dummy => before,
        }
    }
}

/// A copy of `stack`.
fn copy_stack(stack: &crate::rvmti::StackInfo) -> (copy: crate::rvmti::StackInfo)
    ensures
        copy.pc_address == stack.pc_address,
        copy.stack_frames@ == stack.stack_frames@,
{
    let mut stack_frames: Vec<StackFrame> = Vec::new();
    let mut i: usize = 0;
    while i < stack.stack_frames.len()
        invariant
            i <= stack.stack_frames.len(),
            stack_frames@ == stack.stack_frames@.take(i as int),
        decreases stack.stack_frames.len() - i,
    {
        stack_frames.push(stack.stack_frames[i]);
        i += 1;
    }
    crate::rvmti::StackInfo { pc_address: stack.pc_address, stack_frames }
}

/// The inlining stacks that `records` hold.
pub fn inline_stacks(records: &Vec<CompiledMethodLoadRecord>) -> (stacks: Vec<
    crate::rvmti::StackInfo,
>)
    ensures
        stack_views(stacks@) == stack_views(inline_stacks_of(records@)),
{
    let mut stacks: Vec<crate::rvmti::StackInfo> = Vec::new();
    let mut i: usize = 0;
    while i < records.len()
        invariant
            i <= records.len(),
            stack_views(stacks@) == stack_views(inline_stacks_of(records@.take(i as int))),
        decreases records.len() - i,
    {
        assert(records@.take(i + 1).drop_last() =~= records@.take(i as int));
        let ghost before = inline_stacks_of(records@.take(i as int));
        match &records[i] {
            CompiledMethodLoadRecord::Inline { stack_infos } => {
                let mut j: usize = 0;
                while j < stack_infos.len()
                    invariant
                        j <= stack_infos.len(),
                        stack_views(stacks@) == stack_views(before + stack_infos@.take(j as int)),
                    decreases stack_infos.len() - j,
                {
                    let copy = copy_stack(&stack_infos[j]);
                    let ghost earlier = stacks@;
                    stacks.push(copy);
                    proof {
                        let now = before + stack_infos@.take(j + 1);
                        assert(stack_views(earlier).len() == stack_views(
                            before + stack_infos@.take(j as int),
                        ).len());
                        assert forall|k: int| 0 <= k < now.len() implies stack_views(stacks@)[k]
                            == stack_views(now)[k] by {
                            if k < earlier.len() {
                                assert(stack_views(earlier)[k] == stack_views(
                                    before + stack_infos@.take(j as int),
                                )[k]);
                            }
                        }
                    }
                    j += 1;
                }
                assert(stack_infos@.take(stack_infos.len() as int) =~= stack_infos@);
            },
            CompiledMethodLoadRecord::Dummy => {},
        }
        i += 1;
    }
    assert(records@.take(records.len() as int) =~= records@);
    stacks
}

/// How far the resolving of inlining stacks has come: the stacks that are
/// done, the frames of the next stack that are done, and the open question
/// about the frame after them.
#[derive(Debug)]
pub struct StackInfoQuery {
    stacks: Vec<crate::rvmti::StackInfo>,
    resolved: Vec<StackInfo>,
    frames: Vec<StackFrameInfo>,
    method: MethodInfoQuery,
}

/// What an answer leads to while inlining stacks are resolved.
#[derive(Debug)]
pub enum StackInfoStep {
    /// Another question.
    Next(StackInfoQuery),
    /// All stacks, resolved; nothing where there was nothing to resolve.
    Done(Option<Vec<StackInfo>>),
    /// A failure.
    Failed(StackInfoError),
}

/// Whether the frames `resolved` are the frames `frames` in order, each with
/// what is known of its method.
pub open spec fn frames_resolve(resolved: Seq<StackFrameInfo>, frames: Seq<StackFrame>) -> bool {
    &&& resolved.len() <= frames.len()
    &&& forall|j: int|
        0 <= j < resolved.len() ==> (#[trigger] resolved[j]).byte_code_index
            == frames[j].byte_code_index && resolved[j].method.well_formed()
}

/// Whether the stacks `resolved` are the first of the stacks `stacks` in
/// order, each whole and with its address.
pub open spec fn stacks_resolve(
    resolved: Seq<StackInfoView>,
    stacks: Seq<crate::rvmti::StackInfo>,
) -> bool {
    &&& resolved.len() <= stacks.len()
    &&& forall|i: int|
        0 <= i < resolved.len() ==> (#[trigger] resolved[i]).pc_address == stacks[i].pc_address
            && resolved[i].stack_frames.len() == stacks[i].stack_frames@.len()
            && frames_resolve(resolved[i].stack_frames, stacks[i].stack_frames@)
}

/// Where the resolving stands: at the question about a frame, or at the
/// end.
pub enum Position {
    /// The method of the frame after `frames`, in the stack after
    /// `resolved`, is asked about.
    Frame { resolved: Seq<StackInfoView>, frames: Seq<StackFrameInfo> },
    /// Every stack is resolved.
    End { resolved: Seq<StackInfoView> },
}

/// Where the resolving stands once the frames `frames` of the stack after
/// `resolved` are done: at the question about the next frame that there is,
/// or, when every stack is whole, at the end. A stack without frames is
/// whole at once.
pub open spec fn position_after(
    stacks: Seq<crate::rvmti::StackInfo>,
    resolved: Seq<StackInfoView>,
    frames: Seq<StackFrameInfo>,
) -> Position
    decreases stacks.len() - resolved.len(),
{
    if resolved.len() >= stacks.len() {
        Position::End { resolved }
    } else if frames.len() < stacks[resolved.len() as int].stack_frames@.len() {
        Position::Frame { resolved, frames }
    } else {
        let whole = StackInfoView {
            pc_address: stacks[resolved.len() as int].pc_address,
            stack_frames: frames,
        };
        position_after(stacks, resolved.push(whole), Seq::empty())
    }
}

impl StackInfoQuery {
    #[verifier::type_invariant]
    spec fn well_formed(&self) -> bool {
        &&& self.resolved@.len() < self.stacks@.len()
        &&& stacks_resolve(stack_info_views(self.resolved@), self.stacks@)
        &&& self.frames@.len() < self.stacks@[self.resolved@.len() as int].stack_frames@.len()
        &&& frames_resolve(
            self.frames@,
            self.stacks@[self.resolved@.len() as int].stack_frames@,
        )
        &&& self.method.method() == self.stacks@[self.resolved@.len() as int].stack_frames@[self.frames@.len() as int]
            .method_id
    }

    /// The stacks that are being resolved.
    pub closed spec fn stacks(&self) -> Seq<crate::rvmti::StackInfo> {
        self.stacks@
    }

    /// The stacks that are done.
    pub closed spec fn resolved(&self) -> Seq<StackInfoView> {
        stack_info_views(self.resolved@)
    }

    /// The frames that are done of the stack after those that are done.
    pub closed spec fn frames(&self) -> Seq<StackFrameInfo> {
        self.frames@
    }

    /// The open question about the method of the frame after those that are
    /// done.
    pub closed spec fn method(&self) -> MethodInfoQuery {
        self.method
    }

    /// The question that is open.
    pub fn call(&self) -> (call: VmCall)
        ensures
            call == self.method().pending(),
    {
        self.method.call()
    }
}

/// Whether `step` stands at `position` in the resolving of `stacks`.
pub open spec fn step_at(
    step: StackInfoStep,
    stacks: Seq<crate::rvmti::StackInfo>,
    position: Position,
) -> bool {
    match position {
        Position::Frame { resolved, frames } => step matches StackInfoStep::Next(next) && {
            &&& next.stacks() == stacks
            &&& next.resolved() == resolved
            &&& next.frames() == frames
            &&& next.method() == (MethodInfoQuery::Name {
                method: stacks[resolved.len() as int].stack_frames@[frames.len() as int].method_id,
            })
        },
        Position::End { resolved } => step matches StackInfoStep::Done(Some(all))
            && stack_info_views(all@) == resolved,
    }
}

/// Goes on from the frames `first_frames` of the stack after `first`.
fn advance(
    stacks: Vec<crate::rvmti::StackInfo>,
    first: Vec<StackInfo>,
    first_frames: Vec<StackFrameInfo>,
) -> (step: StackInfoStep)
    requires
        stacks_resolve(stack_info_views(first@), stacks@),
        first@.len() < stacks@.len() ==> first_frames@.len()
            <= stacks@[first@.len() as int].stack_frames@.len()
            && frames_resolve(first_frames@, stacks@[first@.len() as int].stack_frames@),
    ensures
        step_at(step, stacks@, position_after(stacks@, stack_info_views(first@), first_frames@)),
        step matches StackInfoStep::Done(result) ==> result matches Some(all) && all@.len()
            == stacks@.len() && stacks_resolve(stack_info_views(all@), stacks@),
        !(step is Failed),
{
    let ghost start = position_after(stacks@, stack_info_views(first@), first_frames@);
    let mut resolved = first;
    let mut frames = first_frames;
    loop
        invariant
            stacks_resolve(stack_info_views(resolved@), stacks@),
            resolved@.len() < stacks@.len() ==> frames@.len()
                <= stacks@[resolved@.len() as int].stack_frames@.len()
                && frames_resolve(frames@, stacks@[resolved@.len() as int].stack_frames@),
            position_after(stacks@, stack_info_views(resolved@), frames@) == start,
            start == position_after(stacks@, stack_info_views(first@), first_frames@),
        decreases stacks@.len() - resolved@.len(),
    {
        let done = resolved.len();
        if done >= stacks.len() {
            return StackInfoStep::Done(Some(resolved));
        }
        let count = frames.len();
        if count < stacks[done].stack_frames.len() {
            let method = MethodInfoQuery::new(stacks[done].stack_frames[count].method_id);
            return StackInfoStep::Next(StackInfoQuery { stacks, resolved, frames, method });
        }
        let whole = StackInfo { pc_address: stacks[done].pc_address, stack_frames: frames };
        let ghost before = stack_info_views(resolved@);
        let ghost added = whole@;
        resolved.push(whole);
        frames = Vec::new();
        proof {
            assert(stack_info_views(resolved@) =~= before.push(added));
        }
    }
}

/// Whether `step` is how the resolving of the stacks of `compile_info`
/// starts. Without records there is nothing to resolve, and nothing is the
/// result. With records the stacks of those with inlining information are
/// resolved, from the first frame that there is.
pub open spec fn begins_stacks(
    compile_info: Option<Vec<CompiledMethodLoadRecord>>,
    step: StackInfoStep,
) -> bool {
    match compile_info {
        None => step matches StackInfoStep::Done(None),
        Some(records) => exists|stacks: Seq<crate::rvmti::StackInfo>|
            {
                &&& stack_views(stacks) == stack_views(inline_stacks_of(records@))
                &&& #[trigger] step_at(
                    step,
                    stacks,
                    position_after(stacks, Seq::empty(), Seq::empty()),
                )
            },
    }
}

/// Starts to resolve the inlining stacks of a compiled method.
pub fn stack_info_begin(compile_info: &Option<Vec<CompiledMethodLoadRecord>>) -> (step:
    StackInfoStep)
    ensures
        begins_stacks(*compile_info, step),
        !(step is Failed),
{
    match compile_info {
        None => StackInfoStep::Done(None),
        Some(records) => {
            let stacks = inline_stacks(records);
            let resolved: Vec<StackInfo> = Vec::new();
            let frames: Vec<StackFrameInfo> = Vec::new();
            assert(stack_info_views(resolved@) =~= Seq::<StackInfoView>::empty());
            let step = advance(stacks, resolved, frames);
            step
        },
    }
}

/// Whether `step` is what the answer `reply` to the open question of
/// `query` leads to. While the frame's method is not fully known the
/// questions about it go on; a failure ends the resolving; once the method
/// is known the frame is done and the resolving moves to the next frame
/// that there is, or ends with all stacks.
pub open spec fn moves_stacks(query: StackInfoQuery, reply: VmReply, step: StackInfoStep) -> bool {
    match method_info_step(query.method(), reply) {
        MethodInfoStep::Next(method) => step matches StackInfoStep::Next(next) && {
            &&& next.stacks() == query.stacks()
            &&& next.resolved() == query.resolved()
            &&& next.frames() == query.frames()
            &&& next.method() == method
        },
        MethodInfoStep::Failed(e) => step == StackInfoStep::Failed(
            StackInfoError::UnableToGetMethodInfo(e),
        ),
        MethodInfoStep::Done(method) => step_at(
            step,
            query.stacks(),
            position_after(
                query.stacks(),
                query.resolved(),
                query.frames().push(
                    StackFrameInfo {
                        method,
                        byte_code_index: query.stacks()[query.resolved().len() as int]
                            .stack_frames@[query.frames().len() as int].byte_code_index,
                    },
                ),
            ),
        ),
    }
}

/// Takes the virtual machine's answer to the open question. When all
/// stacks are resolved there are as many as there were to resolve, each with
/// its address and as many frames as it had, in their order.
pub fn stack_info(query: StackInfoQuery, reply: VmReply) -> (step: StackInfoStep)
    ensures
        moves_stacks(query, reply, step),
        step matches StackInfoStep::Done(result) ==> result matches Some(all) && all@.len()
            == query.stacks().len() && stacks_resolve(stack_info_views(all@), query.stacks()),
{
    proof {
        use_type_invariant(&query);
    }
    let StackInfoQuery { stacks, resolved, frames, method } = query;
    match method_info(method, reply) {
        MethodInfoStep::Next(method) => StackInfoStep::Next(
            StackInfoQuery { stacks, resolved, frames, method },
        ),
        MethodInfoStep::Failed(e) => StackInfoStep::Failed(
            StackInfoError::UnableToGetMethodInfo(e),
        ),
        MethodInfoStep::Done(method) => {
            let mut frames = frames;
            let byte_code_index = stacks[resolved.len()].stack_frames[frames.len()].byte_code_index;
            frames.push(StackFrameInfo { method, byte_code_index });
            advance(stacks, resolved, frames)
        },
    }
}

} // verus!
