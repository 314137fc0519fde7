use vstd::prelude::*;

verus! {

/// Runs one iteration of a rendering step per call. It owns the step and
/// nothing else: there is no clock and no re-invocation of its own; whoever
/// calls `render` once per frame decides the cadence.
pub struct AnimationLoop<I, F> {
    step: F,
    frames: Ghost<Seq<I>>,
}

impl<I, F> AnimationLoop<I, F> {
    /// The rendering step.
    pub closed spec fn step(&self) -> F {
        self.step
    }

    /// The inputs of every iteration run so far, oldest first.
    pub closed spec fn frames(&self) -> Seq<I> {
        self.frames@
    }

    /// A driver for `step` that has run no iteration.
    pub fn new(step: F) -> (r: Self)
        ensures
            r.step() == step,
            r.frames() == Seq::<I>::empty(),
    {
        AnimationLoop { step, frames: Ghost(Seq::empty()) }
    }

    /// Runs the step once on `input` and returns its output. Each call runs
    /// the step exactly once, on exactly the input given, and records that
    /// input as the next frame.
    pub fn render<O>(&mut self, input: I) -> (r: O)
        where
            F: Fn(I) -> O,
        requires
            old(self).step().requires((input,)),
        ensures
            old(self).step().ensures((input,), r),
            final(self).step() == old(self).step(),
            final(self).frames() == old(self).frames().push(input),
    {
        proof {
            self.frames@ = self.frames@.push(input);
        }
        (self.step)(input)
    }
}

/// Two iterations run back to back apply the same step to exactly the two
/// inputs, in order, and each output belongs to its own input.
pub proof fn lemma_render_twice<I, O, F: Fn(I) -> O>(
    d0: AnimationLoop<I, F>,
    d1: AnimationLoop<I, F>,
    d2: AnimationLoop<I, F>,
    a: I,
    b: I,
    ra: O,
    rb: O,
)
    requires
        d0.step().ensures((a,), ra),
        d1.step() == d0.step(),
        d1.frames() == d0.frames().push(a),
        d1.step().ensures((b,), rb),
        d2.step() == d1.step(),
        d2.frames() == d1.frames().push(b),
    ensures
        d2.step() == d0.step(),
        d2.frames().len() == d0.frames().len() + 2,
        d2.frames() == d0.frames() + seq![a, b],
        d0.step().ensures((a,), ra),
        d0.step().ensures((b,), rb),
{
    assert(d2.frames() =~= d0.frames() + seq![a, b]);
}

} // verus!
