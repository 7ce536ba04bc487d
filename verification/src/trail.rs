use vstd::prelude::*;

verus! {

/// Number of positions a trail keeps; older ones are dropped first.
pub const TRAIL_CAPACITY: usize = 800;

/// What one `push` does to the points of a trail: the new point goes to the
/// back and, once the trail holds more than `TRAIL_CAPACITY` points, the
/// oldest one is dropped.
pub open spec fn trail_push_spec<T>(pts: Seq<T>, p: T) -> Seq<T> {
    let grown = pts.push(p);
    if grown.len() > TRAIL_CAPACITY {
        grown.drop_first()
    } else {
        grown
    }
}

/// The points of a trail that started as `start` after `ps` was pushed, in order.
pub open spec fn trail_after_pushes<T>(start: Seq<T>, ps: Seq<T>) -> Seq<T>
    decreases ps.len(),
{
    if ps.len() == 0 {
        start
    } else {
        trail_push_spec(trail_after_pushes(start, ps.drop_last()), ps.last())
    }
}

/// The most recent `TRAIL_CAPACITY` elements of `ps` (all of them if fewer), in order.
pub open spec fn recent_window<T>(ps: Seq<T>) -> Seq<T> {
    if ps.len() > TRAIL_CAPACITY {
        ps.subrange(ps.len() - TRAIL_CAPACITY, ps.len() as int)
    } else {
        ps
    }
}

/// A bounded history of positions, oldest first.
pub struct Trail<T> {
    pts: Vec<T>,
}

impl<T> Trail<T> {
    #[verifier::type_invariant]
    spec fn bounded(self) -> bool {
        self.pts.len() <= TRAIL_CAPACITY
    }
}

impl<T> View for Trail<T> {
    type V = Seq<T>;

    closed spec fn view(&self) -> Seq<T> {
        self.pts@
    }
}

impl<T> Trail<T> {
    /// An empty trail.
    pub fn new() -> (t: Self)
        ensures
            t@ == Seq::<T>::empty(),
    {
        Trail { pts: Vec::new() }
    }

    /// Appends `p`; when the trail then holds more than `TRAIL_CAPACITY`
    /// points the oldest one is removed.
    pub fn push(&mut self, p: T)
        ensures
            final(self)@ == trail_push_spec(old(self)@, p),
            final(self)@.len() <= TRAIL_CAPACITY,
    {
        proof {
            use_type_invariant(&*self);
        }
        let mut pts: Vec<T> = Vec::new();
        std::mem::swap(&mut pts, &mut self.pts);
        pts.push(p);
        if pts.len() > TRAIL_CAPACITY {
            pts.remove(0);
        }
        assert(pts@ =~= trail_push_spec(old(self)@, p));
        self.pts = pts;
    }

    /// Number of points held.
    pub fn len(&self) -> (n: usize)
        ensures
            n == self@.len(),
            n <= TRAIL_CAPACITY,
    {
        proof {
            use_type_invariant(self);
        }
        self.pts.len()
    }

    /// The points, oldest first.
    pub fn points(&self) -> (s: &[T])
        ensures
            s@ == self@,
            s@.len() <= TRAIL_CAPACITY,
    {
        proof {
            use_type_invariant(self);
        }
        self.pts.as_slice()
    }
}

/// One push moves the window of recent points forward by one point.
proof fn lemma_push_window<T>(s: Seq<T>, x: T)
    ensures
        trail_push_spec(recent_window(s), x) == recent_window(s.push(x)),
{
    if s.len() > TRAIL_CAPACITY {
        assert(trail_push_spec(recent_window(s), x) =~= recent_window(s.push(x)));
    } else {
        assert(trail_push_spec(recent_window(s), x) =~= recent_window(s.push(x)));
    }
}

/// The window of recent points has `min(len, 800)` elements and they are the
/// last elements of the sequence, in the same order.
pub proof fn lemma_recent_window_is_suffix<T>(ps: Seq<T>)
    ensures
        recent_window(ps).len() == (if ps.len() > 800 { 800 } else { ps.len() }),
        forall|j: int|
            0 <= j < recent_window(ps).len() ==> #[trigger] recent_window(ps)[j] == ps[ps.len()
                - recent_window(ps).len() + j],
{
}

/// A trail that starts with at most `TRAIL_CAPACITY` points holds, after any
/// sequence of pushes, exactly the most recent `TRAIL_CAPACITY` points of
/// everything it held and was given, oldest first.
pub proof fn lemma_trail_keeps_recent<T>(start: Seq<T>, ps: Seq<T>)
    requires
        start.len() <= TRAIL_CAPACITY,
    ensures
        trail_after_pushes(start, ps) == recent_window(start + ps),
        trail_after_pushes(start, ps).len() <= TRAIL_CAPACITY,
    decreases ps.len(),
{
    if ps.len() == 0 {
        assert(start + ps =~= start);
    } else {
        lemma_trail_keeps_recent(start, ps.drop_last());
        assert(start + ps.drop_last() =~= (start + ps).drop_last());
        assert((start + ps).drop_last().push(ps.last()) =~= start + ps);
        lemma_push_window((start + ps).drop_last(), ps.last());
    }
}

/// A fresh trail, after any sequence of pushes, holds the most recent
/// `TRAIL_CAPACITY` pushed points (all of them if fewer were pushed), in the
/// order they were pushed.
pub proof fn lemma_fresh_trail_keeps_recent<T>(ps: Seq<T>)
    ensures
        trail_after_pushes(Seq::<T>::empty(), ps) == recent_window(ps),
{
    lemma_trail_keeps_recent(Seq::<T>::empty(), ps);
    assert(Seq::<T>::empty() + ps =~= ps);
}

} // verus!
