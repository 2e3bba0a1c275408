use vstd::prelude::*;
use vstd::string::StringExecFns;
use vstd::string::StringSliceAdditionalSpecFns;
use vstd::utf8::{
    decode_utf8, decode_utf8_split, encode_utf8, encode_utf8_decode_utf8, encode_utf8_valid_utf8,
    is_char_boundary, is_char_boundary_start_end_of_seq,
};

use crate::ai::{reveal_drain_size, spec_reveal_drain_size, AiState};

verus! {

/// The first character boundary of `bytes` at or after `d`; the end when
/// `d` is past it.
pub open spec fn boundary_from(bytes: Seq<u8>, d: int) -> int
    decreases bytes.len() - d,
{
    if d >= bytes.len() {
        bytes.len() as int
    } else if d >= 0 && is_char_boundary(bytes, d) {
        d
    } else {
        boundary_from(bytes, d + 1)
    }
}

proof fn lemma_boundary_from_is(bytes: Seq<u8>, d: int, n: int)
    requires
        0 <= d <= n <= bytes.len(),
        forall|j: int| d <= j < n ==> !is_char_boundary(bytes, j),
        n == bytes.len() || is_char_boundary(bytes, n),
    ensures
        boundary_from(bytes, d) == n,
    decreases n - d,
{
    if d < n {
        lemma_boundary_from_is(bytes, d + 1, n);
    }
}

/// How many bytes of `pending` the next tick reveals: a drain of at least
/// `base` bytes, or a `divisor`th of what waits, moved forward to a
/// character boundary.
pub open spec fn revealed_len(pending: Seq<char>, base: usize, divisor: usize) -> int {
    let b = encode_utf8(pending);
    boundary_from(b, spec_reveal_drain_size(b.len() as usize, base, divisor) as int)
}

/// Moves the head of `pending` (see `revealed_len`, whole characters) to
/// the end of `shown`; together they hold the same text as before.
pub fn reveal_step(shown: &mut String, pending: &mut String, base: usize, divisor: usize)
    requires
        divisor > 0,
    ensures
        ({
            let b = encode_utf8(old(pending)@);
            let n = revealed_len(old(pending)@, base, divisor);
            &&& 0 <= n <= b.len()
            &&& final(shown)@ == old(shown)@ + decode_utf8(b.subrange(0, n))
            &&& final(pending)@ == decode_utf8(b.subrange(n, b.len() as int))
        }),
        final(shown)@ + final(pending)@ == old(shown)@ + old(pending)@,
{
    let ghost b = encode_utf8(pending@);
    let s = pending.as_str();
    let len = s.as_bytes().len();
    proof {
        assert(s.spec_bytes() == b);
        encode_utf8_valid_utf8(pending@);
        is_char_boundary_start_end_of_seq(b);
    }
    let d = reveal_drain_size(len, base, divisor);
    let mut n = d;
    while n < len && !s.is_char_boundary(n)
        invariant
            d <= n <= len,
            len == b.len(),
            s.spec_bytes() == b,
            forall|j: int| d <= j < n ==> !is_char_boundary(b, j),
        decreases len - n,
    {
        n = n + 1;
    }
    proof {
        lemma_boundary_from_is(b, d as int, n as int);
        decode_utf8_split(b, n as int);
        encode_utf8_decode_utf8(pending@);
    }
    let (head, tail) = s.split_at(n);
    proof {
        encode_utf8_decode_utf8(head@);
        encode_utf8_decode_utf8(tail@);
        assert(head.spec_bytes() == encode_utf8(head@));
        assert(tail.spec_bytes() == encode_utf8(tail@));
    }
    let rest = tail.to_owned();
    shown.append(head);
    *pending = rest;
}

impl AiState {
    /// One tick of the answer's progressive reveal: waiting answer text
    /// moves to the shown text (at least 6 bytes, or a quarter of what
    /// waits), waiting thinking text likewise (at least 12 bytes, or a
    /// third), in whole characters. Returns whether anything waited.
    pub fn reveal_tick(&mut self) -> (r: bool)
        ensures
            r == (old(self).ai_pending_text@.len() > 0 || old(self).ai_pending_thinking@.len() > 0),
            final(self).ai_streaming_text@ + final(self).ai_pending_text@ == old(self).ai_streaming_text@
                + old(self).ai_pending_text@,
            final(self).ai_streaming_thinking@ + final(self).ai_pending_thinking@ == old(self).ai_streaming_thinking@
                + old(self).ai_pending_thinking@,
            ({
                let b = encode_utf8(old(self).ai_pending_text@);
                let n = revealed_len(old(self).ai_pending_text@, 6, 4);
                final(self).ai_pending_text@ == decode_utf8(b.subrange(n, b.len() as int))
            }),
            ({
                let b = encode_utf8(old(self).ai_pending_thinking@);
                let n = revealed_len(old(self).ai_pending_thinking@, 12, 3);
                final(self).ai_pending_thinking@ == decode_utf8(b.subrange(n, b.len() as int))
            }),
            final(self).ai_is_streaming == old(self).ai_is_streaming,
            final(self).ai_sidebar_open == old(self).ai_sidebar_open,
            final(self).ai_input_focused == old(self).ai_input_focused,
            final(self).ai_at_menu_open == old(self).ai_at_menu_open,
            final(self).ai_has_pending_confirmation == old(self).ai_has_pending_confirmation,
            final(self).ai_last_usage == old(self).ai_last_usage,
            final(self).ai_accumulated_usage == old(self).ai_accumulated_usage,
            final(self).ai_current_turn_usage == old(self).ai_current_turn_usage,
    {
        let any = self.ai_pending_text.as_str().unicode_len() > 0
            || self.ai_pending_thinking.as_str().unicode_len() > 0;
        reveal_step(&mut self.ai_streaming_text, &mut self.ai_pending_text, 6, 4);
        reveal_step(&mut self.ai_streaming_thinking, &mut self.ai_pending_thinking, 12, 3);
        any
    }
}

} // verus!
