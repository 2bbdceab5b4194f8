use vstd::prelude::*;

verus! {

/// Driver error code: no error has been recorded.
pub const NO_ERROR: u32 = 0;

/// Driver error code: a numeric argument is out of range.
pub const INVALID_VALUE: u32 = 0x0501;

/// Driver error code: the operation is not allowed in the current state.
pub const INVALID_OPERATION: u32 = 0x0502;

/// Driver error code: a push would overflow an internal stack.
pub const STACK_OVERFLOW: u32 = 0x0503;

/// Driver error code: a pop would underflow an internal stack.
pub const STACK_UNDERFLOW: u32 = 0x0504;

/// Driver error code: memory for the command could not be allocated.
pub const OUT_OF_MEMORY: u32 = 0x0505;

/// Driver error code: the bound framebuffer is not complete.
pub const INVALID_FRAMEBUFFER_OPERATION: u32 = 0x0506;

/// Driver error code: the rendering context was lost.
pub const CONTEXT_LOST: u32 = 0x0507;

/// Outcome of compiling one shader stage.
#[derive(Debug)]
pub enum ShaderCompile {
    Failed(String),
    Success,
}

/// Outcome of linking a shader program.
#[derive(Debug)]
pub enum ShaderLink {
    Failed(String),
    Success,
}

/// Outcome of a draw call, as read back from the driver's error state.
#[derive(Clone, Debug)]
pub enum DrawStatus {
    Failed(String),
    Success,
}

/// A resource that could not be loaded: a missing file or an undecodable image.
#[derive(Debug)]
pub enum ResourceLoadError {
    MissingFile(String),
    DecodeFailed(String),
}

/// The message reported for a driver error code other than `NO_ERROR`.
pub open spec fn error_message(code: u32) -> Seq<char> {
    if code == INVALID_VALUE {
        "invalid value supplied to draw call"@
    } else if code == INVALID_OPERATION {
        "invalid draw call for current state"@
    } else if code == STACK_OVERFLOW {
        "stack overflow"@
    } else if code == STACK_UNDERFLOW {
        "stack underflow"@
    } else if code == OUT_OF_MEMORY {
        "out of memory"@
    } else if code == INVALID_FRAMEBUFFER_OPERATION {
        "invalid framebuffer operation"@
    } else if code == CONTEXT_LOST {
        "openGL ContextLost"@
    } else {
        "UNDEFINED ERROR"@
    }
}

/// Whether `s` is the status that the driver error `code` stands for.
pub open spec fn is_status_for(s: DrawStatus, code: u32) -> bool {
    if code == NO_ERROR {
        s is Success
    } else {
        s is Failed && s->Failed_0@ == error_message(code)
    }
}

/// Maps a driver error code, read after a draw call, to a `DrawStatus`.
pub fn draw_status_from_error(code: u32) -> (r: DrawStatus)
    ensures
        is_status_for(r, code),
{
    if code == NO_ERROR {
        DrawStatus::Success
    } else if code == INVALID_VALUE {
        DrawStatus::Failed("invalid value supplied to draw call".to_owned())
    } else if code == INVALID_OPERATION {
        DrawStatus::Failed("invalid draw call for current state".to_owned())
    } else if code == STACK_OVERFLOW {
        DrawStatus::Failed("stack overflow".to_owned())
    } else if code == STACK_UNDERFLOW {
        DrawStatus::Failed("stack underflow".to_owned())
    } else if code == OUT_OF_MEMORY {
        DrawStatus::Failed("out of memory".to_owned())
    } else if code == INVALID_FRAMEBUFFER_OPERATION {
        DrawStatus::Failed("invalid framebuffer operation".to_owned())
    } else if code == CONTEXT_LOST {
        DrawStatus::Failed("openGL ContextLost".to_owned())
    } else {
        DrawStatus::Failed("UNDEFINED ERROR".to_owned())
    }
}

/// The first failure in `s`, or `Success` when every status succeeded.
pub open spec fn first_failure(s: Seq<DrawStatus>) -> DrawStatus
    decreases s.len(),
{
    if s.len() == 0 {
        DrawStatus::Success
    } else if s[0] is Failed {
        s[0]
    } else {
        first_failure(s.drop_first())
    }
}

/// Index of the first failure in `s`, or `s.len()` when there is none.
pub open spec fn first_failure_index(s: Seq<DrawStatus>) -> int
    decreases s.len(),
{
    if s.len() == 0 {
        0
    } else if s[0] is Failed {
        0
    } else {
        1 + first_failure_index(s.drop_first())
    }
}

proof fn lemma_first_failure_index(s: Seq<DrawStatus>)
    ensures
        0 <= first_failure_index(s) <= s.len(),
        forall|j: int| 0 <= j < first_failure_index(s) ==> s[j] is Success,
        first_failure_index(s) < s.len() ==> s[first_failure_index(s)] is Failed
            && first_failure(s) == s[first_failure_index(s)],
        first_failure_index(s) == s.len() ==> first_failure(s) is Success,
    decreases s.len(),
{
    if s.len() > 0 && s[0] is Success {
        lemma_first_failure_index(s.drop_first());
        assert forall|j: int| 0 <= j < first_failure_index(s) implies s[j] is Success by {
            if j > 0 {
                assert(s[j] == s.drop_first()[j - 1]);
            }
        }
    }
}

/// Folds the statuses of several draws, all of which were made, into one:
/// the first failure in order, or `Success` when none failed.
pub fn combine_statuses(statuses: Vec<DrawStatus>) -> (r: DrawStatus)
    ensures
        r == first_failure(statuses@),
{
    let ghost s = statuses@;
    let mut pending = statuses;
    let mut i: usize = 0;
    while i < pending.len()
        invariant
            pending@ == s,
            s == statuses@,
            i <= s.len(),
            forall|j: int| 0 <= j < i ==> s[j] is Success,
        decreases s.len() - i,
    {
        if let DrawStatus::Failed(_) = &pending[i] {
            proof {
                lemma_first_failure_index(s);
            }
            assert(first_failure_index(s) == i);
            return pending.remove(i);
        }
        i = i + 1;
    }
    proof {
        lemma_first_failure_index(s);
    }
    DrawStatus::Success
}

/// Folding a run of statuses split in two parts gives the first part's
/// failure if it has one, else the second part's result: the first failure
/// does not depend on how the run is split.
pub proof fn lemma_first_failure_concat(a: Seq<DrawStatus>, b: Seq<DrawStatus>)
    ensures
        first_failure(a + b) == (if first_failure(a) is Failed {
            first_failure(a)
        } else {
            first_failure(b)
        }),
    decreases a.len(),
{
    if a.len() == 0 {
        assert(a + b =~= b);
    } else {
        assert((a + b).drop_first() =~= a.drop_first() + b);
        lemma_first_failure_concat(a.drop_first(), b);
    }
}

} // verus!
