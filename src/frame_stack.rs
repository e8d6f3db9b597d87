use vstd::prelude::*;

verus! {

/// The frames after `push`: the top frame duplicated on top of itself.
pub open spec fn pushed<F>(s: Seq<F>) -> Seq<F> {
    s.push(s.last())
}

/// The frames after `pop`: the top frame removed.
pub open spec fn popped<F>(s: Seq<F>) -> Seq<F> {
    s.drop_last()
}

/// The frames after the top frame is replaced by `f`.
pub open spec fn with_top<F>(s: Seq<F>, f: F) -> Seq<F> {
    s.update(s.len() - 1, f)
}

/// The frames after the top frame is replaced by each of `fs` in turn.
pub open spec fn with_tops<F>(s: Seq<F>, fs: Seq<F>) -> Seq<F>
    decreases fs.len(),
{
    if fs.len() == 0 {
        s
    } else {
        with_top(with_tops(s, fs.drop_last()), fs.last())
    }
}

/// A series of writes to the top frame leaves the frames below it alone and
/// keeps the number of frames.
proof fn lemma_writes_keep_below<F>(s: Seq<F>, fs: Seq<F>)
    requires
        s.len() > 0,
    ensures
        with_tops(s, fs).len() == s.len(),
        with_tops(s, fs).drop_last() == s.drop_last(),
    decreases fs.len(),
{
    if fs.len() > 0 {
        lemma_writes_keep_below(s, fs.drop_last());
        let t = with_tops(s, fs.drop_last());
        assert(with_top(t, fs.last()).drop_last() =~= t.drop_last());
    }
}

/// Push/pop isolation: whatever is written to the top frame after a `push`,
/// the following `pop` gives back exactly the frames from before the `push`,
/// so the parent frame maps points as it did before the nested scope.
pub proof fn lemma_push_pop_isolation<F>(s: Seq<F>, fs: Seq<F>)
    requires
        s.len() > 0,
    ensures
        popped(with_tops(pushed(s), fs)) == s,
{
    lemma_writes_keep_below(pushed(s), fs);
    assert(pushed(s).drop_last() =~= s);
}

/// A `push` leaves the top frame as it was, and a `pop` right after it
/// undoes it.
pub proof fn lemma_push_duplicates_top<F>(s: Seq<F>)
    requires
        s.len() > 0,
    ensures
        pushed(s).last() == s.last(),
        pushed(s).len() == s.len() + 1,
        popped(pushed(s)) == s,
{
    assert(pushed(s).drop_last() =~= s);
}

/// A stack of coordinate frames that always holds at least the root frame.
///
/// The root frame lives in its own field and the nested frames in a vector
/// above it, so the stack cannot become empty.
pub struct TransformStack<F> {
    root: F,
    above: Vec<F>,
}

impl<F> View for TransformStack<F> {
    type V = Seq<F>;

    /// The frames from the root (index 0) to the top (the last one).
    closed spec fn view(&self) -> Seq<F> {
        seq![self.root] + self.above@
    }
}

impl<F: Copy> TransformStack<F> {
    /// A stack holding one root frame, the frame type's default.
    pub fn new() -> (s: Self)
        where F: Default,
        ensures
            s@.len() == 1,
            call_ensures(F::default, (), s@[0]),
    {
        let s = TransformStack { root: F::default(), above: Vec::new() };
        assert(s@ =~= seq![s.root]);
        s
    }

    /// The number of frames above the root, that is how many `push`es are
    /// still open; `pop` may be called when it is positive.
    pub fn nesting_depth(&self) -> (r: usize)
        ensures
            r == self@.len() - 1,
    {
        self.above.len()
    }

    /// The top frame, which every coordinate conversion reads.
    pub fn top(&self) -> (r: F)
        ensures
            self@.len() > 0,
            r == self@.last(),
    {
        let n = self.above.len();
        if n == 0 {
            self.root
        } else {
            self.above[n - 1]
        }
    }

    /// Opens a nested scope: the top frame is duplicated and pushed.
    pub fn push(&mut self)
        ensures
            final(self)@ == pushed(old(self)@),
    {
        let top = self.top();
        self.above.push(top);
        assert(final(self)@ =~= pushed(old(self)@));
    }

    /// Closes the innermost scope: the top frame is discarded, the parent
    /// frame becomes the top again. The root frame is never popped.
    pub fn pop(&mut self)
        requires
            old(self)@.len() > 1,
        ensures
            final(self)@ == popped(old(self)@),
    {
        self.above.pop();
        assert(final(self)@ =~= popped(old(self)@));
    }

    /// Replaces the top frame; the frames below it are left as they are.
    pub fn set_top(&mut self, f: F)
        ensures
            final(self)@ == with_top(old(self)@, f),
    {
        let n = self.above.len();
        if n == 0 {
            self.root = f;
        } else {
            self.above.set(n - 1, f);
        }
        assert(final(self)@ =~= with_top(old(self)@, f));
    }
}

} // verus!
