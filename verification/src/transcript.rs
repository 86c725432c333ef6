//! The Fiat-Shamir transcript: a deterministic challenge deriver.
//!
//! The transcript is seeded with the protocol's fixed domain separator,
//! absorbs public bytes, and squeezes field-element challenges. It is a
//! deterministic pseudorandom function of everything absorbed so far:
//! identical absorb sequences yield identical squeezed outputs across
//! independent invocations, which is what lets the verifier rederive the
//! prover's challenges from the same public inputs.

use vstd::prelude::*;
use crate::backend::Fr;

verus! {

/// The fixed domain separator every transcript of this protocol is seeded
/// with: a protocol parameter, deliberately empty.
pub const TRANSCRIPT_DOMAIN_SEPARATOR: [u8; 0] = [];

/// The field element that a transcript seeded with the protocol's domain
/// separator squeezes, as a function of the absorb history (one inner
/// sequence per absorb call, in order) and of how many squeezes came after
/// the last absorb. The underlying hash-based rng makes this a deterministic
/// function of exactly these two arguments.
pub uninterp spec fn squeezed_element(history: Seq<Seq<u8>>, n: nat) -> Fr;

// The hash-based rng that realises the transcript, hidden behind an opaque
// state so that only the trusted operations below touch it.
#[verifier::external_body]
struct FiatShamirState {
    inner: ark_marlin::rng::FiatShamirRng<blake2::Blake2s>,
}

/// A Fiat-Shamir transcript over the Blake2s digest, seeded with the
/// protocol's fixed domain separator.
pub struct Transcript {
    state: FiatShamirState,
    absorbed: Ghost<Seq<Seq<u8>>>,
    squeezed: Ghost<nat>,
}

impl Transcript {
    /// The bytes absorbed so far, one inner sequence per absorb call.
    pub closed spec fn history(&self) -> Seq<Seq<u8>> {
        self.absorbed@
    }

    /// How many field elements were squeezed since the last absorb.
    pub closed spec fn squeeze_count(&self) -> nat {
        self.squeezed@
    }

    /// A fresh transcript, seeded with the protocol's domain separator and
    /// with nothing absorbed yet.
    pub fn new() -> (t: Transcript)
        ensures
            t.history() == Seq::<Seq<u8>>::empty(),
            t.squeeze_count() == 0,
    {
        Transcript {
            state: seeded_state(),
            absorbed: Ghost(Seq::empty()),
            squeezed: Ghost(0),
        }
    }

    /// Relies on `FiatShamirRng::absorb`: the seed is refreshed from the
    /// previous seed and the absorbed bytes and the output stream restarts,
    /// so later squeezes depend only on the absorb history.
    #[verifier::external_body]
    pub fn absorb(&mut self, bytes: &Vec<u8>)
        ensures
            final(self).history() == old(self).history().push(bytes@),
            final(self).squeeze_count() == 0,
    {
        self.state.inner.absorb(bytes);
    }

    /// Relies on `UniformRand::rand` for the scalar field over the
    /// transcript's rng: the sampled element is a deterministic function of
    /// the rng's stream, hence of the absorb history and the number of
    /// squeezes since the last absorb.
    #[verifier::external_body]
    pub fn squeeze_field_element(&mut self) -> (r: Fr)
        ensures
            r == squeezed_element(old(self).history(), old(self).squeeze_count()),
            final(self).history() == old(self).history(),
            final(self).squeeze_count() == old(self).squeeze_count() + 1,
    {
        <Fr as ark_std::UniformRand>::rand(&mut self.state.inner)
    }
}

/// Relies on `FiatShamirRng::from_seed`: seeding is a deterministic function
/// of the seed bytes alone, so every state this returns behaves identically.
#[verifier::external_body]
fn seeded_state() -> FiatShamirState {
    FiatShamirState {
        inner: ark_marlin::rng::FiatShamirRng::from_seed(&TRANSCRIPT_DOMAIN_SEPARATOR),
    }
}

/// Law: the transcript is deterministic. Two derivations over the same
/// absorb history squeeze the same elements, squeeze for squeeze.
pub proof fn lemma_transcript_determinism(h1: Seq<Seq<u8>>, h2: Seq<Seq<u8>>, n: nat)
    requires
        h1 == h2,
    ensures
        squeezed_element(h1, n) == squeezed_element(h2, n),
{
}

/// Law: concatenation cancels — if two byte strings differ, they still
/// differ after the same string is appended to both, or prepended to both.
/// This is what lets a change in one absorbed encoding survive into the
/// whole absorbed transcript input.
pub proof fn lemma_concat_cancellation(a: Seq<u8>, b: Seq<u8>, c: Seq<u8>)
    requires
        a != b,
    ensures
        a + c != b + c,
        c + a != c + b,
{
    if a.len() == b.len() {
        assert(exists|i: int| 0 <= i < a.len() && a[i] != b[i]) by {
            if forall|i: int| 0 <= i < a.len() ==> a[i] == b[i] {
                assert(a =~= b);
            }
        }
        let i = choose|i: int| 0 <= i < a.len() && a[i] != b[i];
        assert((a + c)[i] == a[i]);
        assert((b + c)[i] == b[i]);
        assert((c + a)[c.len() + i] == a[i]);
        assert((c + b)[c.len() + i] == b[i]);
    } else {
        assert((a + c).len() != (b + c).len());
        assert((c + a).len() != (c + b).len());
    }
}

/// Law: absorbing two distinct same-length encodings in swapped order
/// changes the absorbed bytes, so the two transcripts are not the same
/// function of their inputs. (Concatenation order matters.)
pub proof fn lemma_absorb_order_sensitivity(b1: Seq<u8>, b2: Seq<u8>)
    requires
        b1.len() == b2.len(),
        b1 != b2,
    ensures
        b1 + b2 != b2 + b1,
{
    assert(exists|i: int| 0 <= i < b1.len() && b1[i] != b2[i]) by {
        if forall|i: int| 0 <= i < b1.len() ==> b1[i] == b2[i] {
            assert(b1 =~= b2);
        }
    }
    let i = choose|i: int| 0 <= i < b1.len() && b1[i] != b2[i];
    assert((b1 + b2)[i] == b1[i]);
    assert((b2 + b1)[i] == b2[i]);
}

} // verus!
