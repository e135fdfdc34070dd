//! The sensor-side line protocol.
//!
//! A sensor device, once opened, emits newline-terminated numeric strings.
//! The consumer reads raw bytes; the payload of a line is everything before
//! the first line feed, with carriage returns dropped.  Turning that
//! payload into a temperature (or into "not a number" when it is
//! malformed) is numeric parsing and stays with the device loop.

use vstd::prelude::*;

verus! {

/// The payload of a raw byte sequence: every byte before the first line
/// feed (byte 10), in order, with carriage returns (byte 13) dropped.
pub open spec fn line_payload(s: Seq<u8>) -> Seq<u8>
    decreases s.len(),
{
    if s.len() == 0 {
        Seq::empty()
    } else if s.first() == 10u8 {
        Seq::empty()
    } else if s.first() == 13u8 {
        line_payload(s.drop_first())
    } else {
        seq![s.first()] + line_payload(s.drop_first())
    }
}

/// The payload of a line never contains a line feed or a carriage return:
/// the terminator ends it and carriage returns are dropped.
pub proof fn lemma_line_payload_clean(s: Seq<u8>)
    ensures
        forall|i: int|
            0 <= i < line_payload(s).len() ==> #[trigger] line_payload(s)[i] != 10u8
                && line_payload(s)[i] != 13u8,
    decreases s.len(),
{
    if s.len() == 0 || s.first() == 10u8 {
    } else if s.first() == 13u8 {
        lemma_line_payload_clean(s.drop_first());
        assert forall|i: int|
            0 <= i < line_payload(s).len() implies #[trigger] line_payload(s)[i] != 10u8
            && line_payload(s)[i] != 13u8 by {
            assert(line_payload(s) == line_payload(s.drop_first()));
            assert(line_payload(s.drop_first())[i] != 10u8 && line_payload(s.drop_first())[i]
                != 13u8);
        }
    } else {
        lemma_line_payload_clean(s.drop_first());
        assert forall|i: int|
            0 <= i < line_payload(s).len() implies #[trigger] line_payload(s)[i] != 10u8
            && line_payload(s)[i] != 13u8 by {
            if i == 0 {
                assert(line_payload(s)[0] == s.first());
            } else {
                assert(line_payload(s)[i] == line_payload(s.drop_first())[i - 1]);
            }
        }
    }
}

/// Extracts the payload of one raw line: the bytes before the first line
/// feed, carriage returns dropped.
pub fn extract_line_payload(bytes: &Vec<u8>) -> (r: Vec<u8>)
    ensures
        r@ == line_payload(bytes@),
{
    let n: usize = bytes.len();
    let mut out: Vec<u8> = Vec::new();
    let mut i: usize = 0;
    proof {
        assert(bytes@.skip(0) =~= bytes@);
        assert(Seq::<u8>::empty() + line_payload(bytes@) =~= line_payload(bytes@));
    }
    while i < n
        invariant
            i <= n,
            n == bytes@.len(),
            line_payload(bytes@) == out@ + line_payload(bytes@.skip(i as int)),
        decreases n - i,
    {
        let b: u8 = bytes[i];
        let ghost rest = bytes@.skip(i as int);
        proof {
            assert(rest.len() > 0);
            assert(rest.first() == b);
            assert(rest.drop_first() =~= bytes@.skip(i as int + 1));
        }
        if b == 10u8 {
            proof {
                assert(out@ + line_payload(rest) =~= out@);
            }
            return out;
        }
        if b != 13u8 {
            let ghost out_pre = out@;
            out.push(b);
            proof {
                assert(out_pre + (seq![b] + line_payload(rest.drop_first())) =~= out@
                    + line_payload(rest.drop_first()));
            }
        }
        i = i + 1;
    }
    proof {
        assert(bytes@.skip(n as int) =~= Seq::<u8>::empty());
        assert(out@ + line_payload(bytes@.skip(n as int)) =~= out@);
    }
    out
}

} // verus!
