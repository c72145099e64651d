//! The deterministic stack-exercise pattern run by each worker thread, and
//! the stack-size constants.
//!
//! Each worker thread owns a buffer sized to its usable stack budget, writes
//! byte `k mod 256` at step `k` across the whole buffer, then re-reads it in
//! the same step order and checks every byte. One thread steps forward, the
//! other in reverse index order; a mismatch means the stack was corrupted and
//! the probe must abort.

use vstd::prelude::*;

verus! {

/// Bytes allocated for each worker thread's stack (2 MiB), the default
/// thread stack size made explicit.
pub const THREAD_STACK_SIZE: usize = 2 * 1024 * 1024;

/// Stack bytes reserved as headroom for runtime bookkeeping (8 KiB). The
/// figure is an empirical margin, a tunable of the experiment rather than a
/// guaranteed-safe bound.
pub const STACK_HEADROOM: usize = 8 * 1024;

/// The usable portion of a worker thread's stack: the allocation minus the
/// reserved headroom.
pub const THREAD_STACK_FOR_US: usize = THREAD_STACK_SIZE - STACK_HEADROOM;

/// The usable budget and the headroom together account exactly for the
/// allocated thread stack, and the budget is positive.
pub proof fn lemma_stack_budget_consistent()
    ensures
        THREAD_STACK_FOR_US + STACK_HEADROOM == THREAD_STACK_SIZE,
        0 < THREAD_STACK_FOR_US < THREAD_STACK_SIZE,
{
}

/// The order in which a routine steps across its buffer.
#[derive(Clone, Copy, Debug, PartialEq, Eq, Structural)]
pub enum FillDirection {
    /// Step `k` touches cell `k`.
    Forward,
    /// Step `k` touches cell `len - 1 - k`.
    Reverse,
}

/// The byte written at step `k`: the step number reduced modulo 256.
pub open spec fn pattern_byte_spec(k: int) -> u8 {
    (k % 256) as u8
}

/// The cell that step `k` touches in a buffer of length `len`.
pub open spec fn fill_index_spec(dir: FillDirection, len: int, k: int) -> int {
    match dir {
        FillDirection::Forward => k,
        FillDirection::Reverse => len - 1 - k,
    }
}

/// The byte that cell `i` of a fully filled buffer of length `len` holds:
/// the pattern byte of the step that touched it.
pub open spec fn expected_byte(dir: FillDirection, len: int, i: int) -> u8 {
    match dir {
        FillDirection::Forward => pattern_byte_spec(i),
        FillDirection::Reverse => pattern_byte_spec(len - 1 - i),
    }
}

/// Whether every cell of `s` holds the byte the fill routine puts there.
pub open spec fn is_filled(s: Seq<u8>, dir: FillDirection) -> bool {
    forall|i: int| 0 <= i < s.len() ==> s[i] == expected_byte(dir, s.len() as int, i)
}

/// The image of a buffer under the fill routine: same length, every cell
/// holding its expected byte. The contents of `s` do not matter, only its
/// length.
pub open spec fn filled_seq(s: Seq<u8>, dir: FillDirection) -> Seq<u8> {
    Seq::new(s.len(), |i: int| expected_byte(dir, s.len() as int, i))
}

/// The byte written at step `k`.
pub fn pattern_byte(k: usize) -> (r: u8)
    ensures
        r == pattern_byte_spec(k as int),
{
    (k % 256) as u8
}

/// The cell that step `k` touches in a buffer of length `len`.
pub fn fill_index(dir: FillDirection, len: usize, k: usize) -> (r: usize)
    requires
        k < len,
    ensures
        r == fill_index_spec(dir, len as int, k as int),
        r < len,
{
    match dir {
        FillDirection::Forward => k,
        FillDirection::Reverse => len - 1 - k,
    }
}

/// Allocates the zero-initialized buffer that serves as the child process's
/// stack.
pub fn make_zeroed(n: usize) -> (buf: Vec<u8>)
    ensures
        buf@.len() == n,
        forall|i: int| 0 <= i < n ==> buf@[i] == 0u8,
{
    let mut buf: Vec<u8> = Vec::new();
    let mut k: usize = 0;
    while k < n
        invariant
            0 <= k <= n,
            buf@.len() == k,
            forall|i: int| 0 <= i < k ==> buf@[i] == 0u8,
        decreases n - k,
    {
        buf.push(0u8);
        k = k + 1;
    }
    buf
}

/// Writes the pattern byte of every step across the whole buffer, one cell
/// per step, in the given direction. The result is the filled image of the
/// buffer: it depends on the buffer's length alone.
pub fn fill_pattern(buf: &mut Vec<u8>, dir: FillDirection)
    ensures
        final(buf)@ == filled_seq(old(buf)@, dir),
        final(buf)@.len() == old(buf)@.len(),
        is_filled(final(buf)@, dir),
{
    let len = buf.len();
    let mut k: usize = 0;
    while k < len
        invariant
            0 <= k <= len,
            buf@.len() == len,
            forall|j: int|
                0 <= j < k ==> #[trigger] buf@[fill_index_spec(dir, len as int, j)]
                    == pattern_byte_spec(j),
        decreases len - k,
    {
        let idx = fill_index(dir, len, k);
        let v = pattern_byte(k);
        proof {
            assert forall|j: int| 0 <= j < k implies fill_index_spec(dir, len as int, j)
                != fill_index_spec(dir, len as int, k as int) by {}
        }
        buf.set(idx, v);
        k = k + 1;
    }
    proof {
        assert forall|i: int| 0 <= i < len implies buf@[i]
            == expected_byte(dir, len as int, i) by {
            let j: int = if dir is Forward {
                i
            } else {
                len - 1 - i
            };
            assert(fill_index_spec(dir, len as int, j) == i);
            assert(buf@[fill_index_spec(dir, len as int, j)] == pattern_byte_spec(j));
        }
        assert(buf@ =~= filled_seq(old(buf)@, dir));
    }
}

/// Re-reads the buffer in step order and reports whether every cell still
/// holds its expected byte; `false` signals stack corruption.
pub fn verify_pattern(buf: &Vec<u8>, dir: FillDirection) -> (r: bool)
    ensures
        r == is_filled(buf@, dir),
{
    let len = buf.len();
    let mut k: usize = 0;
    while k < len
        invariant
            0 <= k <= len,
            buf@.len() == len,
            forall|j: int|
                0 <= j < k ==> #[trigger] buf@[fill_index_spec(dir, len as int, j)]
                    == pattern_byte_spec(j),
        decreases len - k,
    {
        let idx = fill_index(dir, len, k);
        let expect = pattern_byte(k);
        if buf[idx] != expect {
            proof {
                let i = fill_index_spec(dir, len as int, k as int);
                assert(buf@[i] != expected_byte(dir, len as int, i));
            }
            return false;
        }
        k = k + 1;
    }
    proof {
        assert forall|i: int| 0 <= i < len implies buf@[i]
            == expected_byte(dir, len as int, i) by {
            let j: int = if dir is Forward {
                i
            } else {
                len - 1 - i
            };
            assert(fill_index_spec(dir, len as int, j) == i);
            assert(buf@[fill_index_spec(dir, len as int, j)] == pattern_byte_spec(j));
        }
    }
    true
}

/// The whole routine one worker thread runs over a buffer of the given size:
/// fill the pattern, then re-read and check it. In the absence of memory
/// faults it always reports success; a `false` from the in-thread check is
/// precisely the probe's corruption signal.
pub fn thread_stack_routine(len: usize, dir: FillDirection) -> (ok: bool)
    ensures
        ok,
{
    let mut buf = make_zeroed(len);
    fill_pattern(&mut buf, dir);
    verify_pattern(&buf, dir)
}

/// Running a fill routine twice over a buffer leaves exactly what one run
/// leaves: each routine is idempotent, and its image always passes the
/// verification scan.
pub proof fn lemma_fill_routine_idempotent(s: Seq<u8>, dir: FillDirection)
    ensures
        filled_seq(filled_seq(s, dir), dir) == filled_seq(s, dir),
        is_filled(filled_seq(s, dir), dir),
{
    assert(filled_seq(filled_seq(s, dir), dir) =~= filled_seq(s, dir));
}

/// The two fill routines are independent: what one leaves in its buffer is a
/// function of that buffer's length alone, so running the other routine over
/// a different buffer — or not running it at all — cannot change the
/// outcome. The routines share no memory.
pub proof fn lemma_fill_routines_independent(a: Seq<u8>, b: Seq<u8>, dir: FillDirection)
    requires
        a.len() == b.len(),
    ensures
        filled_seq(a, dir) == filled_seq(b, dir),
{
    assert(filled_seq(a, dir) =~= filled_seq(b, dir));
}

/// A buffer passes the verification scan exactly when it equals its own
/// filled image.
pub proof fn lemma_verify_means_filled_image(s: Seq<u8>, dir: FillDirection)
    ensures
        is_filled(s, dir) <==> s == filled_seq(s, dir),
{
    if is_filled(s, dir) {
        assert(s =~= filled_seq(s, dir));
    }
    if s == filled_seq(s, dir) {
        assert forall|i: int| 0 <= i < s.len() implies s[i]
            == expected_byte(dir, s.len() as int, i) by {
            assert(s[i] == filled_seq(s, dir)[i]);
        }
    }
}

} // verus!
