use vstd::prelude::*;

use crate::ime::ImeState;

verus! {

/// A change of the observed input state, to be made visible.
#[derive(Debug, Clone, Copy, PartialEq, Eq, Structural)]
pub struct Transition {
    pub state: ImeState,
}

/// Whether a probe result differs from the last emitted state.
pub open spec fn emits(last: Option<ImeState>, s: ImeState) -> bool {
    last != Some(s)
}

/// The last emitted state after a run of probes.
pub open spec fn last_after(last: Option<ImeState>, probes: Seq<ImeState>) -> Option<ImeState> {
    if probes.len() == 0 {
        last
    } else {
        Some(probes.last())
    }
}

/// The states emitted, in order, by a run of probes.
pub open spec fn emitted(last: Option<ImeState>, probes: Seq<ImeState>) -> Seq<ImeState>
    decreases probes.len(),
{
    if probes.len() == 0 {
        Seq::empty()
    } else {
        let init = probes.drop_last();
        let before = emitted(last, init);
        if emits(last_after(last, init), probes.last()) {
            before.push(probes.last())
        } else {
            before
        }
    }
}

/// Holds the last emitted state; `None` forces the next probe to emit.
#[derive(Debug, Clone, Copy, PartialEq, Eq, Structural)]
pub struct BadgeMachine {
    pub last: Option<ImeState>,
}

impl BadgeMachine {
    pub fn new() -> (r: BadgeMachine)
        ensures
            r.last is None,
    {
        BadgeMachine { last: None }
    }

    /// Forgets the last emitted state, so that the next probe emits.
    pub fn reset(&mut self)
        ensures
            final(self).last is None,
    {
        self.last = None;
    }

    /// Records a probe result; yields a transition iff it differs from the
    /// last emitted state.
    pub fn on_probe_result(&mut self, state: ImeState) -> (r: Option<Transition>)
        ensures
            final(self).last == Some(state),
            r == (if emits(old(self).last, state) {
                Some(Transition { state })
            } else {
                None
            }),
    {
        let prev = self.last;
        self.last = Some(state);
        let changed = match prev {
            Some(p) => p != state,
            None => true,
        };
        if changed {
            Some(Transition { state })
        } else {
            None
        }
    }

    /// Feeds a run of probe results; returns the states emitted, in order.
    pub fn run_probes(&mut self, probes: &Vec<ImeState>) -> (r: Vec<ImeState>)
        ensures
            r@ == emitted(old(self).last, probes@),
            final(self).last == last_after(old(self).last, probes@),
    {
        let ghost start = self.last;
        let mut out: Vec<ImeState> = Vec::new();
        let mut i: usize = 0;
        while i < probes.len()
            invariant
                i <= probes@.len(),
                out@ == emitted(start, probes@.take(i as int)),
                self.last == last_after(start, probes@.take(i as int)),
            decreases probes@.len() - i,
        {
            let s = probes[i];
            proof {
                assert(probes@.take(i as int + 1).drop_last() =~= probes@.take(i as int));
            }
            if let Some(t) = self.on_probe_result(s) {
                out.push(t.state);
            }
            i = i + 1;
        }
        proof {
            assert(probes@.take(i as int) =~= probes@);
        }
        out
    }
}

/// A state probed repeatedly emits once at most: once if it differs from the
/// last emitted state, never otherwise.
pub proof fn lemma_repeated_probe_emits_once(last: Option<ImeState>, s: ImeState, n: nat)
    requires
        n >= 1,
    ensures
        emitted(last, Seq::new(n, |i: int| s)) == (if emits(last, s) {
            seq![s]
        } else {
            Seq::<ImeState>::empty()
        }),
    decreases n,
{
    let p = Seq::new(n, |i: int| s);
    assert(p.last() == s);
    if n == 1 {
        let e = Seq::<ImeState>::empty();
        assert(p.drop_last() =~= e);
        assert(emitted(last, e) == e);
        assert(last_after(last, e) == last);
        assert(e.push(s) =~= seq![s]);
        assert(emitted(last, p) == (if emits(last, s) { e.push(s) } else { e }));
    } else {
        let q = Seq::new((n - 1) as nat, |i: int| s);
        assert(p.drop_last() =~= q);
        assert(q.last() == s);
        assert(last_after(last, q) == Some(s));
        lemma_repeated_probe_emits_once(last, s, (n - 1) as nat);
    }
}

/// A probe emits exactly when its state differs from the one before it in the
/// run (or, for the first probe, from the last emitted state): each emitted
/// run extends the shorter run by one state precisely in that case.
pub proof fn lemma_emits_iff_changed(last: Option<ImeState>, probes: Seq<ImeState>, i: int)
    requires
        0 <= i < probes.len(),
    ensures
        ({
            let prev = if i == 0 { last } else { Some(probes[i - 1]) };
            let before = emitted(last, probes.take(i));
            let after = emitted(last, probes.take(i + 1));
            &&& emits(prev, probes[i]) ==> after == before.push(probes[i])
            &&& !emits(prev, probes[i]) ==> after == before
        }),
{
    assert(probes.take(i + 1).drop_last() =~= probes.take(i));
    assert(probes.take(i + 1).last() == probes[i]);
    if i > 0 {
        assert(probes.take(i).last() == probes[i - 1]);
    }
}

} // verus!
