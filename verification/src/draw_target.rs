//! In-memory rendering surface for a bar.
//!
//! Terminal geometry and ANSI control live outside the engine; what the
//! engine needs of a surface is narrow and is modeled here exactly: a
//! width, a redraw rate limit, the lines currently shown for the bar, and
//! the "orphan" lines committed above it for good. An unforced redraw is
//! refused while the limit interval has not passed since the last one; a
//! forced redraw always goes through.

use vstd::prelude::*;

verus! {

/// The surface a bar draws onto.
pub struct DrawTarget {
    width: u64,
    rate_nanos: u64,
    last_draw: Option<u64>,
    history: Vec<String>,
    visible: Vec<String>,
}

impl DrawTarget {
    /// Width handed to the formatter.
    pub closed spec fn spec_width(self) -> u64 {
        self.width
    }

    /// Minimum nanoseconds between unforced redraws; zero disables limiting.
    pub closed spec fn spec_rate(self) -> u64 {
        self.rate_nanos
    }

    /// Timestamp of the last permitted redraw, if any.
    pub closed spec fn spec_last_draw(self) -> Option<u64> {
        self.last_draw
    }

    /// Lines committed above the bar for good.
    pub closed spec fn spec_history(self) -> Seq<String> {
        self.history@
    }

    /// Lines currently shown for the bar itself.
    pub closed spec fn spec_visible(self) -> Seq<String> {
        self.visible@
    }

    /// Whether a redraw is permitted at `now`: always when forced, else
    /// only once the limit interval has passed since the last redraw.
    pub open spec fn spec_permits(self, force: bool, now: u64) -> bool {
        force || match self.spec_last_draw() {
            Option::None => true,
            Option::Some(t) => (if now >= t {
                (now - t) as u64
            } else {
                0
            }) >= self.spec_rate(),
        }
    }

    /// A fresh target that has drawn nothing yet.
    pub fn new(width: u64, rate_nanos: u64) -> (t: DrawTarget)
        ensures
            t.spec_width() == width,
            t.spec_rate() == rate_nanos,
            t.spec_last_draw() is None,
            t.spec_history() == Seq::<String>::empty(),
            t.spec_visible() == Seq::<String>::empty(),
    {
        let t = DrawTarget {
            width,
            rate_nanos,
            last_draw: Option::None,
            history: Vec::new(),
            visible: Vec::new(),
        };
        t
    }

    pub fn width(&self) -> (r: u64)
        ensures
            r == self.spec_width(),
    {
        self.width
    }

    /// Ask for a redraw at `now`. When permitted, `now` becomes the last
    /// redraw time and the caller may commit; otherwise nothing changes.
    pub fn drawable(&mut self, force: bool, now: u64) -> (r: bool)
        ensures
            r == old(self).spec_permits(force, now),
            r ==> final(self).spec_last_draw() == Option::Some(now),
            !r ==> *final(self) == *old(self),
            final(self).spec_width() == old(self).spec_width(),
            final(self).spec_rate() == old(self).spec_rate(),
            final(self).spec_history() == old(self).spec_history(),
            final(self).spec_visible() == old(self).spec_visible(),
    {
        let ok: bool = force || match self.last_draw {
            Option::None => true,
            Option::Some(t) => now.saturating_sub(t) >= self.rate_nanos,
        };
        if ok {
            self.last_draw = Option::Some(now);
        }
        ok
    }

    /// Commit a redraw: the given lines replace what the bar shows.
    pub fn commit(&mut self, lines: Vec<String>)
        ensures
            final(self).spec_visible() == lines@,
            final(self).spec_width() == old(self).spec_width(),
            final(self).spec_rate() == old(self).spec_rate(),
            final(self).spec_last_draw() == old(self).spec_last_draw(),
            final(self).spec_history() == old(self).spec_history(),
    {
        self.visible = lines;
    }

    /// Commit lines above the bar for good; later redraws never touch them.
    pub fn append_orphans(&mut self, lines: Vec<String>)
        ensures
            final(self).spec_history() == old(self).spec_history() + lines@,
            final(self).spec_width() == old(self).spec_width(),
            final(self).spec_rate() == old(self).spec_rate(),
            final(self).spec_last_draw() == old(self).spec_last_draw(),
            final(self).spec_visible() == old(self).spec_visible(),
    {
        let mut lines = lines;
        self.history.append(&mut lines);
    }

    /// Clear the bar's lines from the surface.
    pub fn clear(&mut self)
        ensures
            final(self).spec_visible() == Seq::<String>::empty(),
            final(self).spec_width() == old(self).spec_width(),
            final(self).spec_rate() == old(self).spec_rate(),
            final(self).spec_last_draw() == old(self).spec_last_draw(),
            final(self).spec_history() == old(self).spec_history(),
    {
        self.visible = Vec::new();
    }

    /// The lines currently shown for the bar.
    pub fn visible_lines(&self) -> (r: &Vec<String>)
        ensures
            r@ == self.spec_visible(),
    {
        &self.visible
    }

    /// The lines committed above the bar.
    pub fn history_lines(&self) -> (r: &Vec<String>)
        ensures
            r@ == self.spec_history(),
    {
        &self.history
    }
}

} // verus!
