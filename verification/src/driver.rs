//! The decode loop: one formatted line per instruction until the
//! stream is cleanly exhausted, with every structural decode error
//! fatal to the rest of the run.

use vstd::prelude::*;
use vstd::string::StringExecFns;
use crate::cursor::ByteCursor;
use crate::decode::decode_one;
use crate::model::{instruction_spec, lemma_instruction_consumes, DecodeError};

verus! {

/// The instruction lines decoded from `s`, and the error that stopped
/// the run, if any.  Decoding stops cleanly when the stream is empty
/// at an instruction boundary; an error discards no line already
/// produced but ends the run.
pub open spec fn run_spec(s: Seq<u8>) -> (Seq<Seq<char>>, Option<DecodeError>)
    decreases s.len(),
{
    if s.len() == 0 {
        (Seq::empty(), None)
    } else {
        match instruction_spec(s) {
            Err(e) => (Seq::empty(), Some(e)),
            Ok(p) => if 1 <= p.1 <= s.len() {
                let rest = run_spec(s.skip(p.1 as int));
                (seq![p.0] + rest.0, rest.1)
            } else {
                (Seq::empty(), None)
            },
        }
    }
}

/// The complete output for the stream `s`: the fixed width-convention
/// header line, then one line per decoded instruction.
pub open spec fn output_spec(s: Seq<u8>) -> (Seq<Seq<char>>, Option<DecodeError>) {
    (seq!["bits 16"@] + run_spec(s).0, run_spec(s).1)
}

/// Decode the whole byte stream into output lines.  The returned
/// lines start with the header and hold one line per instruction
/// decoded before the error, if any; `None` as the second component
/// is clean termination at an instruction boundary.
#[verifier::loop_isolation(false)]
pub fn disassemble(bytes: Vec<u8>) -> (r: (Vec<String>, Option<DecodeError>))
    ensures
        r.0@.len() == output_spec(bytes@).0.len(),
        forall|i: int| 0 <= i < r.0@.len() ==> r.0@[i]@ == output_spec(bytes@).0[i],
        r.1 == output_spec(bytes@).1,
{
    let ghost s0 = bytes@;
    let mut cur = ByteCursor::new(bytes);
    let mut out: Vec<String> = Vec::new();
    out.push(String::from_str("bits 16"));
    proof {
        assert(cur.remaining() =~= s0);
    }
    loop
        invariant
            cur.wf(),
            cur.stream() == s0,
            out@.len() >= 1,
            out@[0]@ == "bits 16"@,
            out@.len() - 1 + run_spec(cur.remaining()).0.len() == run_spec(s0).0.len(),
            run_spec(cur.remaining()).1 == run_spec(s0).1,
            forall|i: int| 1 <= i < out@.len() ==> run_spec(s0).0[i - 1] == #[trigger] out@[i]@,
            forall|j: int|
                0 <= j < run_spec(cur.remaining()).0.len() ==> run_spec(s0).0[out@.len() - 1 + j]
                    == #[trigger] run_spec(cur.remaining()).0[j],
        decreases cur.remaining().len(),
    {
        let ghost rem = cur.remaining();
        match cur.next_byte() {
            None => {
                return (out, None);
            },
            Some(op) => {
                proof {
                    assert(seq![op] + cur.remaining() =~= rem);
                }
                match decode_one(op, &mut cur) {
                    Err(e) => {
                        return (out, Some(e));
                    },
                    Ok(line) => {
                        proof {
                            lemma_instruction_consumes(rem);
                            let p = instruction_spec(rem)->Ok_0;
                            assert(cur.remaining() =~= rem.skip(p.1 as int));
                            assert(run_spec(rem).0 == seq![p.0] + run_spec(
                                rem.skip(p.1 as int),
                            ).0);
                            assert(run_spec(rem).1 == run_spec(rem.skip(p.1 as int)).1);
                        }
                        let ghost old_out = out@;
                        out.push(line);
                        proof {
                            let p = instruction_spec(rem)->Ok_0;
                            let rest = run_spec(cur.remaining());
                            assert(run_spec(s0).0[old_out.len() - 1] == (seq![p.0] + rest.0)[0]);
                            assert forall|i: int| 1 <= i < out@.len() implies run_spec(s0).0[i - 1]
                                == #[trigger] out@[i]@ by {
                                if i < out@.len() - 1 {
                                    assert(out@[i] == old_out[i]);
                                } else {
                                    assert(out@[i] == line);
                                }
                            }
                            assert forall|j: int| 0 <= j < rest.0.len() implies run_spec(
                                s0,
                            ).0[out@.len() - 1 + j] == #[trigger] rest.0[j] by {
                                assert(run_spec(s0).0[old_out.len() - 1 + (j + 1)] == (seq![p.0]
                                    + rest.0)[j + 1]);
                            }
                        }
                    },
                }
            },
        }
    }
}

} // verus!
