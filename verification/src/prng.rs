use vstd::prelude::*;

verus! {

/// One transition of the 16-bit Fibonacci linear-feedback shift register with
/// taps at bits 0, 2, 3 and 5: the register shifts right one place and the
/// XOR of the tapped bits becomes the new top bit.
pub open spec fn lfsr_step(s: u16) -> u16 {
    (s >> 1) | (((s ^ (s >> 2) ^ (s >> 3) ^ (s >> 5)) & 1) << 15)
}

/// The register value after `n` transitions starting from `s`.
pub open spec fn lfsr_iter(s: u16, n: nat) -> u16
    decreases n,
{
    if n == 0 {
        s
    } else {
        lfsr_step(lfsr_iter(s, (n - 1) as nat))
    }
}

/// Replays the console's pseudo-random sequence. The register is fully
/// determined by the seed and the number of transitions applied, so a given
/// `(seed, iteration)` pair always reproduces the same value.
pub struct NesPrng {
    seed: u16,
    state: u16,
    it: Ghost<nat>,
}

impl NesPrng {
    /// The seed the generator was created with.
    pub closed spec fn spec_seed(&self) -> u16 {
        self.seed
    }

    /// The current register value.
    pub closed spec fn spec_state(&self) -> u16 {
        self.state
    }

    /// How many transitions separate the current register from the seed.
    pub closed spec fn spec_it(&self) -> nat {
        self.it@
    }

    /// The register always equals the seed advanced by the recorded number of
    /// transitions.
    pub open spec fn wf(&self) -> bool {
        self.spec_state() == lfsr_iter(self.spec_seed(), self.spec_it())
    }

    /// A fresh generator holds the seed itself, advanced by `it` transitions
    /// when a starting iteration is given.
    pub fn new(seed: u16, it: Option<u16>) -> (r: NesPrng)
        ensures
            r.wf(),
            r.spec_seed() == seed,
            r.spec_it() == (match it {
                Some(n) => n as nat,
                None => 0nat,
            }),
    {
        let mut p = NesPrng { seed, state: seed, it: Ghost(0nat) };
        if let Some(n) = it {
            p.set_it(n);
        }
        p
    }

    /// Fast-forwards deterministically: the register becomes the seed advanced
    /// by exactly `n` transitions, regardless of any stepping done before.
    pub fn set_it(&mut self, n: u16)
        ensures
            final(self).wf(),
            final(self).spec_seed() == old(self).spec_seed(),
            final(self).spec_it() == n as nat,
            final(self).spec_state() == lfsr_iter(old(self).spec_seed(), n as nat),
    {
        let mut s: u16 = self.seed;
        let mut i: u16 = 0;
        while i < n
            invariant
                i <= n,
                s == lfsr_iter(self.seed, i as nat),
            decreases n - i,
        {
            s = (s >> 1) | (((s ^ (s >> 2) ^ (s >> 3) ^ (s >> 5)) & 1) << 15);
            i = i + 1;
        }
        self.state = s;
        self.it = Ghost(n as nat);
    }

    /// Applies the register transition exactly once and returns the new value.
    pub fn step(&mut self) -> (r: u16)
        requires
            old(self).wf(),
        ensures
            final(self).wf(),
            final(self).spec_seed() == old(self).spec_seed(),
            final(self).spec_state() == lfsr_step(old(self).spec_state()),
            final(self).spec_it() == old(self).spec_it() + 1,
            r == final(self).spec_state(),
    {
        let s = self.state;
        self.state = (s >> 1) | (((s ^ (s >> 2) ^ (s >> 3) ^ (s >> 5)) & 1) << 15);
        proof {
            self.it@ = self.it@ + 1;
        }
        self.state
    }

    /// The current register value, without advancing.
    pub fn value(&self) -> (r: u16)
        ensures
            r == self.spec_state(),
    {
        self.state
    }
}

/// Fast-forwarding and stepping agree: advancing a fresh generator's register
/// one more transition is the same as stepping the register it had reached.
/// So `set_it(n)` yields exactly the value `n` calls of `step()` yield on a
/// fresh generator with the same seed.
pub proof fn lemma_set_it_matches_steps(seed: u16, n: nat)
    ensures
        lfsr_iter(seed, n + 1) == lfsr_step(lfsr_iter(seed, n)),
        lfsr_iter(seed, 0) == seed,
{
}

} // verus!
