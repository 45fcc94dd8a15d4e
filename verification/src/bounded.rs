//! The fixed-capacity collections of `heapless`, as the rest of the library
//! sees them.
//!
//! Each collection is opaque to the verifier. What it holds is named by a
//! spec function, and every call into `heapless` goes through one of
//! the functions below, whose contract is taken on trust from the source of
//! `heapless`.

use crate::messaging::Message;
use crate::patterns::{Pattern, PatternElement};
use crate::scheduler::TaskData;
use vstd::prelude::*;

verus! {

/// `heapless::Vec`: a vector of at most `N` items, stored in place.
#[verifier::external_type_specification]
#[verifier::external_body]
#[verifier::reject_recursive_types(T)]
pub struct ExBoundedVec<T, const N: usize>(heapless::Vec<T, N>);

/// `heapless::spsc::Queue`: a ring of `N` slots that holds at most `N - 1` items.
#[verifier::external_type_specification]
#[verifier::external_body]
#[verifier::reject_recursive_types(T)]
pub struct ExRingQueue<T, const N: usize>(heapless::spsc::Queue<T, N>);

/// The bytes that a message buffer holds, first to last.
pub uninterp spec fn buffer_bytes(buffer: heapless::Vec<u8, 256>) -> Seq<u8>;

/// `heapless::Vec::new`: the new buffer holds nothing.
#[verifier::external_body]
pub(crate) fn bytes_new() -> (buffer: heapless::Vec<u8, 256>)
    ensures
        buffer_bytes(buffer) == Seq::<u8>::empty(),
{
    heapless::Vec::new()
}

/// `len` of the slice that a `heapless::Vec` derefs to: the number of bytes
/// held, which never exceeds the capacity.
#[verifier::external_body]
pub(crate) fn bytes_len(buffer: &heapless::Vec<u8, 256>) -> (len: usize)
    ensures
        len == buffer_bytes(*buffer).len(),
        len <= 256,
{
    buffer.len()
}

/// `heapless::Vec::push`: appends the byte while there is room; a full buffer
/// is left as it was and the byte comes back.
#[verifier::external_body]
pub(crate) fn bytes_push(buffer: &mut heapless::Vec<u8, 256>, byte: u8) -> (pushed: Result<(), u8>)
    ensures
        pushed is Ok <==> buffer_bytes(*old(buffer)).len() < 256,
        pushed is Ok ==> buffer_bytes(*final(buffer)) == buffer_bytes(*old(buffer)).push(byte),
        pushed matches Err(back) ==> back == byte && buffer_bytes(*final(buffer)) == buffer_bytes(
            *old(buffer),
        ),
{
    buffer.push(byte)
}

/// Indexing the slice that a `heapless::Vec` derefs to: the byte at `idx`.
#[verifier::external_body]
pub(crate) fn bytes_get(buffer: &heapless::Vec<u8, 256>, idx: usize) -> (byte: u8)
    requires
        idx < buffer_bytes(*buffer).len(),
    ensures
        byte == buffer_bytes(*buffer)[idx as int],
{
    buffer[idx]
}

/// `Clone` of `heapless::Vec`: the copy holds the same bytes in the same order.
#[verifier::external_body]
pub(crate) fn bytes_clone(buffer: &heapless::Vec<u8, 256>) -> (copy: heapless::Vec<u8, 256>)
    ensures
        buffer_bytes(copy) == buffer_bytes(*buffer),
{
    buffer.clone()
}

/// The elements that a pattern's storage holds, first to last.
pub uninterp spec fn pattern_elements(elements: heapless::Vec<PatternElement, 16>) -> Seq<
    PatternElement,
>;

/// `heapless::Vec::new`: the new storage holds nothing.
#[verifier::external_body]
pub(crate) fn elements_new() -> (elements: heapless::Vec<PatternElement, 16>)
    ensures
        pattern_elements(elements) == Seq::<PatternElement>::empty(),
{
    heapless::Vec::new()
}

/// `len` of the slice that a `heapless::Vec` derefs to: the number of
/// elements held, which never exceeds the capacity.
#[verifier::external_body]
pub(crate) fn elements_len(elements: &heapless::Vec<PatternElement, 16>) -> (len: usize)
    ensures
        len == pattern_elements(*elements).len(),
        len <= 16,
{
    elements.len()
}

/// `heapless::Vec::push`: appends the element while there is room; a full
/// storage is left as it was and the element comes back.
#[verifier::external_body]
pub(crate) fn elements_push(
    elements: &mut heapless::Vec<PatternElement, 16>,
    element: PatternElement,
) -> (pushed: Result<(), PatternElement>)
    ensures
        pushed is Ok <==> pattern_elements(*old(elements)).len() < 16,
        pushed is Ok ==> pattern_elements(*final(elements)) == pattern_elements(
            *old(elements),
        ).push(element),
        pushed matches Err(back) ==> back == element && pattern_elements(*final(elements))
            == pattern_elements(*old(elements)),
{
    elements.push(element)
}

/// Indexing the slice that a `heapless::Vec` derefs to: the element at `idx`.
#[verifier::external_body]
pub(crate) fn elements_get(elements: &heapless::Vec<PatternElement, 16>, idx: usize) -> (element:
    PatternElement)
    requires
        idx < pattern_elements(*elements).len(),
    ensures
        element == pattern_elements(*elements)[idx as int],
{
    elements[idx]
}

/// `Clone` of `heapless::Vec`: the copy holds the same elements in the same
/// order.
#[verifier::external_body]
pub(crate) fn elements_clone(elements: &heapless::Vec<PatternElement, 16>) -> (copy: heapless::Vec<
    PatternElement,
    16,
>)
    ensures
        pattern_elements(copy) == pattern_elements(*elements),
{
    elements.clone()
}

/// The patterns that an engine's storage holds, by slot.
pub uninterp spec fn stored_patterns(patterns: heapless::Vec<Pattern, 9>) -> Seq<Pattern>;

/// `heapless::Vec::new`: the new storage holds nothing.
#[verifier::external_body]
pub(crate) fn patterns_new() -> (patterns: heapless::Vec<Pattern, 9>)
    ensures
        stored_patterns(patterns) == Seq::<Pattern>::empty(),
{
    heapless::Vec::new()
}

/// `len` of the slice that a `heapless::Vec` derefs to: the number of
/// patterns held, which never exceeds the capacity.
#[verifier::external_body]
pub(crate) fn patterns_len(patterns: &heapless::Vec<Pattern, 9>) -> (len: usize)
    ensures
        len == stored_patterns(*patterns).len(),
        len <= 9,
{
    patterns.len()
}

/// `heapless::Vec::push`: appends the pattern while there is room; a full
/// storage is left as it was and the pattern comes back.
#[verifier::external_body]
pub(crate) fn patterns_push(patterns: &mut heapless::Vec<Pattern, 9>, pattern: Pattern) -> (pushed:
    Result<(), Pattern>)
    ensures
        pushed is Ok <==> stored_patterns(*old(patterns)).len() < 9,
        pushed is Ok ==> stored_patterns(*final(patterns)) == stored_patterns(*old(patterns)).push(
            pattern,
        ),
        pushed matches Err(back) ==> back == pattern && stored_patterns(*final(patterns))
            == stored_patterns(*old(patterns)),
{
    patterns.push(pattern)
}

/// Indexing the slice that a `heapless::Vec` derefs to: the pattern in slot
/// `idx`.
#[verifier::external_body]
pub(crate) fn patterns_get(patterns: &heapless::Vec<Pattern, 9>, idx: usize) -> (pattern: &Pattern)
    requires
        idx < stored_patterns(*patterns).len(),
    ensures
        *pattern == stored_patterns(*patterns)[idx as int],
{
    &patterns[idx]
}

/// Assigning through the mutable slice that a `heapless::Vec` derefs to: slot
/// `idx` takes the pattern, the other slots keep theirs.
#[verifier::external_body]
pub(crate) fn patterns_set(patterns: &mut heapless::Vec<Pattern, 9>, idx: usize, pattern: Pattern)
    requires
        idx < stored_patterns(*old(patterns)).len(),
    ensures
        stored_patterns(*final(patterns)) == stored_patterns(*old(patterns)).update(
            idx as int,
            pattern,
        ),
{
    patterns[idx] = pattern;
}

/// The tasks that a scheduler's queue holds, oldest first.
pub uninterp spec fn queued_tasks(queue: heapless::spsc::Queue<TaskData, 32>) -> Seq<TaskData>;

/// `heapless::spsc::Queue::new`: the new queue holds nothing.
#[verifier::external_body]
pub(crate) fn tasks_new() -> (queue: heapless::spsc::Queue<TaskData, 32>)
    ensures
        queued_tasks(queue) == Seq::<TaskData>::empty(),
{
    heapless::spsc::Queue::new()
}

/// `heapless::spsc::Queue::len`: the number of tasks held, which a ring of 32
/// slots keeps below 32.
#[verifier::external_body]
pub(crate) fn tasks_len(queue: &heapless::spsc::Queue<TaskData, 32>) -> (len: usize)
    ensures
        len == queued_tasks(*queue).len(),
        len < 32,
{
    queue.len()
}

/// `heapless::spsc::Queue::enqueue`: puts the task behind the others while
/// fewer than 31 are held; a full queue is left as it was and the task comes
/// back.
#[verifier::external_body]
pub(crate) fn tasks_enqueue(
    queue: &mut heapless::spsc::Queue<TaskData, 32>,
    task: TaskData,
) -> (queued: Result<(), TaskData>)
    ensures
        queued is Ok <==> queued_tasks(*old(queue)).len() < 31,
        queued is Ok ==> queued_tasks(*final(queue)) == queued_tasks(*old(queue)).push(task),
        queued matches Err(back) ==> back == task && queued_tasks(*final(queue)) == queued_tasks(
            *old(queue),
        ),
{
    queue.enqueue(task)
}

/// `heapless::spsc::Queue::dequeue`: takes the oldest task out, or returns
/// `None` and leaves an empty queue as it was.
#[verifier::external_body]
pub(crate) fn tasks_dequeue(queue: &mut heapless::spsc::Queue<TaskData, 32>) -> (front: Option<
    TaskData,
>)
    ensures
        front is Some <==> queued_tasks(*old(queue)).len() > 0,
        front matches Some(task) ==> task == queued_tasks(*old(queue))[0] && queued_tasks(
            *final(queue),
        ) == queued_tasks(*old(queue)).drop_first(),
        front is None ==> queued_tasks(*final(queue)) == queued_tasks(*old(queue)),
{
    queue.dequeue()
}

/// The messages that a message queue holds, oldest first.
pub uninterp spec fn queued_messages(queue: heapless::spsc::Queue<Message, 16>) -> Seq<Message>;

/// `heapless::spsc::Queue::new`: the new queue holds nothing.
#[verifier::external_body]
pub(crate) fn messages_new() -> (queue: heapless::spsc::Queue<Message, 16>)
    ensures
        queued_messages(queue) == Seq::<Message>::empty(),
{
    heapless::spsc::Queue::new()
}

/// `heapless::spsc::Queue::len`: the number of messages held, which a ring of
/// 16 slots keeps below 16.
#[verifier::external_body]
pub(crate) fn messages_len(queue: &heapless::spsc::Queue<Message, 16>) -> (len: usize)
    ensures
        len == queued_messages(*queue).len(),
        len < 16,
{
    queue.len()
}

/// `heapless::spsc::Queue::enqueue`: puts the message behind the others while
/// fewer than 15 are held; a full queue is left as it was and the message
/// comes back.
#[verifier::external_body]
pub(crate) fn messages_enqueue(
    queue: &mut heapless::spsc::Queue<Message, 16>,
    message: Message,
) -> (queued: Result<(), Message>)
    ensures
        queued is Ok <==> queued_messages(*old(queue)).len() < 15,
        queued is Ok ==> queued_messages(*final(queue)) == queued_messages(*old(queue)).push(
            message,
        ),
        queued matches Err(back) ==> back == message && queued_messages(*final(queue))
            == queued_messages(*old(queue)),
{
    queue.enqueue(message)
}

/// `heapless::spsc::Queue::dequeue`: takes the oldest message out, or returns
/// `None` and leaves an empty queue as it was.
#[verifier::external_body]
pub(crate) fn messages_dequeue(queue: &mut heapless::spsc::Queue<Message, 16>) -> (front: Option<
    Message,
>)
    ensures
        front is Some <==> queued_messages(*old(queue)).len() > 0,
        front matches Some(message) ==> message == queued_messages(*old(queue))[0]
            && queued_messages(*final(queue)) == queued_messages(*old(queue)).drop_first(),
        front is None ==> queued_messages(*final(queue)) == queued_messages(*old(queue)),
{
    queue.dequeue()
}

} // verus!
