//! The worker-held result buffer and the adapter that copies a successful
//! search result out of it into a canonical, independently owned proof.

use vstd::prelude::*;
use crate::engine::EngineOutcome;
use crate::errors::Error;
use crate::params::CYCLE_LENGTH;

verus! {

/// The canonical proof value: an immutable ordered sequence of nonces,
/// copied out of the solution buffer on success. Once returned it is owned
/// by the caller and independent of any later buffer mutation.
pub struct Proof {
    pub nonces: Vec<u64>,
}

impl Proof {
    /// A proof always carries exactly the scheme's cycle length of nonces.
    pub open spec fn wf(self) -> bool {
        self.nonces@.len() == CYCLE_LENGTH
    }
}

/// Mutable scratch space for the most recent search result, exclusively
/// owned by one worker and never handed out by reference.
pub struct SolutionBuffer {
    pub nonces: Vec<u64>,
}

impl SolutionBuffer {
    /// The buffer keeps the fixed cycle length for the worker's lifetime.
    pub open spec fn wf(self) -> bool {
        self.nonces@.len() == CYCLE_LENGTH
    }

    /// A fresh buffer, zero-filled to the cycle length.
    pub fn new() -> (r: SolutionBuffer)
        ensures
            r.wf(),
            r.nonces@ == Seq::new(CYCLE_LENGTH as nat, |i: int| 0u64),
    {
        let mut nonces: Vec<u64> = Vec::new();
        let mut i: usize = 0;
        while i < CYCLE_LENGTH
            invariant
                i <= CYCLE_LENGTH,
                nonces@ == Seq::new(i as nat, |j: int| 0u64),
            decreases CYCLE_LENGTH - i,
        {
            nonces.push(0u64);
            proof {
                assert(nonces@ =~= Seq::new((i + 1) as nat, |j: int| 0u64));
            }
            i = i + 1;
        }
        SolutionBuffer { nonces }
    }
}

/// An element-wise copy of `src`, owned by the caller.
fn copy_nonces(src: &Vec<u64>) -> (r: Vec<u64>)
    ensures
        r@ == src@,
{
    let mut out: Vec<u64> = Vec::new();
    let mut i: usize = 0;
    while i < src.len()
        invariant
            i <= src@.len(),
            out@ == src@.take(i as int),
        decreases src@.len() - i,
    {
        out.push(src[i]);
        proof {
            assert(out@ =~= src@.take(i + 1));
        }
        i = i + 1;
    }
    proof {
        assert(src@.take(src@.len() as int) =~= src@);
    }
    out
}

/// Whether an engine outcome yields a proof: a found cycle of exactly the
/// scheme's length.
pub open spec fn adapt_ok(o: EngineOutcome) -> bool {
    o matches EngineOutcome::Found(n) && n@.len() == CYCLE_LENGTH
}

/// The nonces a successful outcome carries.
pub open spec fn outcome_nonces(o: EngineOutcome) -> Seq<u64> {
    match o {
        EngineOutcome::Found(n) => n@,
        _ => Seq::empty(),
    }
}

/// The error a non-yielding outcome maps to: exhaustion is the expected
/// `NoSolution`; a fault, or a found cycle of the wrong length, is the
/// engine's own failure.
pub open spec fn adapted_error(o: EngineOutcome) -> Error {
    match o {
        EngineOutcome::NotFound => Error::NoSolution,
        _ => Error::EngineInvocationFailed,
    }
}

/// Copies a successful outcome into the buffer and out into a fresh,
/// independently owned proof; maps the other outcomes onto their errors and
/// leaves the buffer as it was.
pub fn adapt(outcome: &EngineOutcome, buffer: &mut SolutionBuffer) -> (r: Result<Proof, Error>)
    ensures
        adapt_ok(*outcome) ==> (r matches Ok(p) && p.nonces@ == outcome_nonces(*outcome)
            && final(buffer).nonces@ == outcome_nonces(*outcome)),
        !adapt_ok(*outcome) ==> (r == Err::<Proof, Error>(adapted_error(*outcome))
            && *final(buffer) == *old(buffer)),
        final(buffer).wf() <==> (adapt_ok(*outcome) || old(buffer).wf()),
{
    match outcome {
        EngineOutcome::Found(n) => {
            if n.len() == CYCLE_LENGTH {
                buffer.nonces = copy_nonces(n);
                Ok(Proof { nonces: copy_nonces(n) })
            } else {
                Err(Error::EngineInvocationFailed)
            }
        },
        EngineOutcome::NotFound => Err(Error::NoSolution),
        EngineOutcome::Fault => Err(Error::EngineInvocationFailed),
    }
}

} // verus!
