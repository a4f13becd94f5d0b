//! Assembly of a glyph outline into closed contours, as the font's outline
//! commands arrive. The points are of any type; the curve flattening that
//! produces them is done by the caller.
use vstd::prelude::*;

verus! {

/// The contours closed so far, and the points of the contour being drawn.
pub struct OutlineContours<P> {
    contours: Vec<Vec<P>>,
    current: Vec<P>,
}

/// `contours` with `current` added as one more contour when it holds
/// points.
pub open spec fn close_current<P>(contours: Seq<Seq<P>>, current: Seq<P>) -> Seq<Seq<P>> {
    if current.len() > 0 {
        contours.push(current)
    } else {
        contours
    }
}

impl<P: Copy> OutlineContours<P> {
    /// The contours closed so far.
    pub closed spec fn spec_contours(&self) -> Seq<Seq<P>> {
        self.contours@.map_values(|c: Vec<P>| c@)
    }

    /// The points of the contour being drawn.
    pub closed spec fn spec_current(&self) -> Seq<P> {
        self.current@
    }

    pub fn new() -> (o: Self)
        ensures
            o.spec_contours() == Seq::<Seq<P>>::empty(),
            o.spec_current() == Seq::<P>::empty(),
    {
        let o = OutlineContours { contours: Vec::new(), current: Vec::new() };
        assert(o.spec_contours() =~= Seq::<Seq<P>>::empty());
        o
    }

    /// Moves the current contour, if it holds points, to the closed ones.
    fn flush_current(&mut self)
        ensures
            final(self).spec_contours() == close_current(old(self).spec_contours(), old(self).spec_current()),
            final(self).spec_current() == Seq::<P>::empty(),
    {
        if self.current.len() > 0 {
            let mut taken: Vec<P> = Vec::new();
            core::mem::swap(&mut taken, &mut self.current);
            self.contours.push(taken);
            assert(final(self).spec_contours() =~= old(self).spec_contours().push(old(self).spec_current()));
        }
    }

    /// Starts a new contour at `p`, closing the current one if it holds
    /// points.
    pub fn move_to(&mut self, p: P)
        ensures
            final(self).spec_contours() == close_current(old(self).spec_contours(), old(self).spec_current()),
            final(self).spec_current() == seq![p],
    {
        self.flush_current();
        self.current.push(p);
        assert(final(self).spec_current() =~= seq![p]);
    }

    /// Extends the current contour to `p`.
    pub fn line_to(&mut self, p: P)
        ensures
            final(self).spec_contours() == old(self).spec_contours(),
            final(self).spec_current() == old(self).spec_current().push(p),
    {
        self.current.push(p);
    }

    /// Closes the current contour if it holds points.
    pub fn close(&mut self)
        ensures
            final(self).spec_contours() == close_current(old(self).spec_contours(), old(self).spec_current()),
            final(self).spec_current() == Seq::<P>::empty(),
    {
        self.flush_current();
    }

    /// The last point of the current contour, where a curve starts.
    pub fn last_point(&self) -> (p: Option<P>)
        ensures
            p == (if self.spec_current().len() > 0 {
                Some(self.spec_current().last())
            } else {
                None::<P>
            }),
    {
        if self.current.len() > 0 {
            Some(self.current[self.current.len() - 1])
        } else {
            None
        }
    }

    /// All the contours, the current one included when it holds points.
    pub fn into_contours(self) -> (contours: Vec<Vec<P>>)
        ensures
            contours@.map_values(|c: Vec<P>| c@) == close_current(self.spec_contours(), self.spec_current()),
    {
        let mut this = self;
        this.flush_current();
        this.contours
    }
}

} // verus!
