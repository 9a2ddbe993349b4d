//! Ring-buffer index arithmetic for delay lines.
//!
//! Every delay line in the effects — the chorus ring buffers, the
//! early-reflection tap line, the feedback-network lines — addresses a
//! fixed-size buffer through these two functions, so a read or write
//! position is always reduced modulo the buffer length and can never
//! step outside it.

use vstd::arithmetic::div_mod::lemma_mod_multiples_vanish;
use vstd::arithmetic::div_mod::lemma_small_mod;
use vstd::prelude::*;

verus! {

/// The write position after one sample: wraps at the end of the buffer.
pub fn advance_index(pos: usize, size: usize) -> (r: usize)
    requires
        1 <= size,
        pos < size,
    ensures
        r == (pos + 1) % (size as int),
        r < size,
{
    proof {
        if pos + 1 < size {
            lemma_small_mod((pos + 1) as nat, size as nat);
        } else {
            lemma_mod_multiples_vanish(1, 0, size as int);
            lemma_small_mod(0, size as nat);
        }
    }
    if pos + 1 == size {
        0
    } else {
        pos + 1
    }
}

/// The position `delay` samples behind `write_pos`, with the delay
/// capped at `size - 1`: always a valid index.
pub fn read_index(write_pos: usize, delay: usize, size: usize) -> (r: usize)
    requires
        1 <= size,
        write_pos < size,
    ensures
        ({
            let d: int = if delay > size - 1 {
                size - 1
            } else {
                delay as int
            };
            r == (write_pos + size - d) % (size as int)
        }),
        r < size,
{
    let d: usize = if delay > size - 1 {
        size - 1
    } else {
        delay
    };
    proof {
        if write_pos >= d {
            lemma_mod_multiples_vanish(1, write_pos - d, size as int);
            lemma_small_mod((write_pos - d) as nat, size as nat);
        } else {
            lemma_small_mod((write_pos + size - d) as nat, size as nat);
        }
    }
    if write_pos >= d {
        write_pos - d
    } else {
        size - (d - write_pos)
    }
}

} // verus!
