//! The session controller: the event-loop state machine.
//!
//! The controller owns the interaction state (current scroll offset, whether
//! a frame has been rendered yet) and maps each input event to a directive
//! for the surrounding loop: quit, render a fresh frame, or repaint the
//! cached one. A fresh session renders its first frame before the loop
//! first blocks for input ([`Controller::first_frame`]); after that, every
//! decision the loop takes comes from [`Controller::handle_event`]. The
//! loop itself only performs the blocking reads, captures and paints.

use vstd::prelude::*;
use crate::scroll::ScrollPosition;

verus! {

/// The keyboard events the controller distinguishes. Every event the
/// terminal can deliver maps to one of these; anything that is not the
/// escape key or a vertical arrow is `Other`.
#[derive(Clone, Copy, PartialEq, Eq, Structural, Debug)]
pub enum InputEvent {
    Escape,
    Up,
    Down,
    Other,
}

/// What the event loop must do after one event has been handled.
#[derive(Clone, Copy, PartialEq, Eq, Structural, Debug)]
pub enum Directive {
    /// Leave the loop; the session is over.
    Quit,
    /// Push the current scroll position to the page source, capture, encode,
    /// replace the cached frame, then paint it.
    Render,
    /// Paint the cached frame again without producing a new one.
    PaintOnly,
}

/// Terminal columns and rows, captured once at startup and read-only for
/// the lifetime of the session.
#[derive(Clone, Copy, PartialEq, Eq, Structural, Debug)]
pub struct ViewportLimits {
    pub columns: u32,
    pub rows: u32,
}

impl ViewportLimits {
    /// Both dimensions of a real terminal are positive.
    pub open spec fn well_formed(self) -> bool {
        self.columns > 0 && self.rows > 0
    }

    pub fn new(columns: u32, rows: u32) -> (limits: ViewportLimits)
        requires
            columns > 0,
            rows > 0,
        ensures
            limits.columns == columns,
            limits.rows == rows,
            limits.well_formed(),
    {
        ViewportLimits { columns, rows }
    }
}

/// The interaction state of one session.
pub struct Controller {
    pub scroll: ScrollPosition,
    pub has_frame: bool,
    pub limits: ViewportLimits,
}

/// The vertical offset after one event: the up key subtracts `step` and
/// clamps at zero, the down key adds `step`, everything else leaves the
/// offset alone.
pub open spec fn vertical_after_event(v: int, event: InputEvent, step: int) -> int {
    match event {
        InputEvent::Up => if v >= step { v - step } else { 0 },
        InputEvent::Down => v + step,
        _ => v,
    }
}

/// The vertical offset after a whole sequence of events.
pub open spec fn vertical_after_events(v: int, events: Seq<InputEvent>, step: int) -> int
    decreases events.len(),
{
    if events.len() == 0 {
        v
    } else {
        vertical_after_events(vertical_after_event(v, events[0], step), events.drop_first(), step)
    }
}

/// How many renders one loop iteration performs for `event`, given whether a
/// frame was already cached: arrow keys always render, the escape key never
/// does, and any other event forces a render only for the very first frame.
pub open spec fn iteration_renders(has_frame: bool, event: InputEvent) -> nat {
    match event {
        InputEvent::Escape => 0,
        InputEvent::Up => 1,
        InputEvent::Down => 1,
        InputEvent::Other => if has_frame { 0nat } else { 1nat },
    }
}

/// How many renders the loop performs on `events`, stopping at the first
/// escape key. After any iteration that is not an escape a frame is cached.
pub open spec fn renders_until_quit(has_frame: bool, events: Seq<InputEvent>) -> nat
    decreases events.len(),
{
    if events.len() == 0 {
        0
    } else if events[0] == InputEvent::Escape {
        0
    } else {
        iteration_renders(has_frame, events[0]) + renders_until_quit(true, events.drop_first())
    }
}

/// How many renders a whole fresh session performs on `events`: the forced
/// first frame, rendered before the loop first waits for input, and then
/// the loop's renders with a frame always cached.
pub open spec fn session_renders(events: Seq<InputEvent>) -> nat {
    1 + renders_until_quit(true, events)
}

/// The vertical offsets a whole fresh session hands to the page source, one
/// per render: the forced first frame at the starting offset, then one per
/// loop render.
pub open spec fn session_render_calls(events: Seq<InputEvent>, step: int) -> Seq<int> {
    seq![0int] + render_calls(0, true, events, step)
}

/// The vertical offsets handed to the page source, one per render, for a run
/// of the loop on `events` that starts at offset `v`.
pub open spec fn render_calls(v: int, has_frame: bool, events: Seq<InputEvent>, step: int) -> Seq<int>
    decreases events.len(),
{
    if events.len() == 0 {
        Seq::empty()
    } else if events[0] == InputEvent::Escape {
        Seq::empty()
    } else {
        let v2 = vertical_after_event(v, events[0], step);
        let here: Seq<int> = if iteration_renders(has_frame, events[0]) == 1 {
            seq![v2]
        } else {
            Seq::empty()
        };
        here + render_calls(v2, true, events.drop_first(), step)
    }
}

impl Controller {
    /// A fresh session: scroll at the origin, no frame cached yet.
    pub fn new(limits: ViewportLimits) -> (c: Controller)
        ensures
            c.scroll.horizontal == 0,
            c.scroll.vertical == 0,
            !c.has_frame,
            c.limits == limits,
    {
        Controller { scroll: ScrollPosition::origin(), has_frame: false, limits }
    }

    /// The forced first frame: before the loop first blocks for input, a
    /// session with no cached frame renders once at its current scroll
    /// position. A session that already holds a frame only paints it again.
    pub fn first_frame(&mut self) -> (d: Directive)
        ensures
            final(self).scroll == old(self).scroll,
            final(self).limits == old(self).limits,
            final(self).has_frame,
            d == if old(self).has_frame {
                Directive::PaintOnly
            } else {
                Directive::Render
            },
    {
        if self.has_frame {
            Directive::PaintOnly
        } else {
            self.has_frame = true;
            Directive::Render
        }
    }

    /// Handles one input event and says what the loop must do next.
    ///
    /// The escape key quits and touches nothing. The up key moves the view up
    /// by `step` (clamped at zero) and renders; the down key moves it down by
    /// `step` and renders. Any other event renders only when no frame has
    /// ever been rendered; otherwise the cached frame is painted again.
    pub fn handle_event(&mut self, event: InputEvent, step: u32) -> (d: Directive)
        requires
            event == InputEvent::Down ==> old(self).scroll.vertical + step <= u32::MAX,
        ensures
            final(self).limits == old(self).limits,
            final(self).scroll.horizontal == old(self).scroll.horizontal,
            final(self).scroll.vertical as int
                == vertical_after_event(old(self).scroll.vertical as int, event, step as int),
            final(self).has_frame == (old(self).has_frame || event != InputEvent::Escape),
            d == InputEvent::directive_for(old(self).has_frame, event),
            event == InputEvent::Escape ==> *final(self) == *old(self),
    {
        match event {
            InputEvent::Escape => Directive::Quit,
            InputEvent::Up => {
                self.scroll = self.scroll.scrolled_up(step);
                self.has_frame = true;
                Directive::Render
            },
            InputEvent::Down => {
                self.scroll = self.scroll.scrolled_down(step);
                self.has_frame = true;
                Directive::Render
            },
            InputEvent::Other => {
                if self.has_frame {
                    Directive::PaintOnly
                } else {
                    self.has_frame = true;
                    Directive::Render
                }
            },
        }
    }
}

impl InputEvent {
    /// The directive one event produces, given whether a frame is cached.
    pub open spec fn directive_for(has_frame: bool, event: InputEvent) -> Directive {
        match event {
            InputEvent::Escape => Directive::Quit,
            InputEvent::Up => Directive::Render,
            InputEvent::Down => Directive::Render,
            InputEvent::Other => if has_frame { Directive::PaintOnly } else { Directive::Render },
        }
    }
}

/// The vertical offsets of a render trace.
pub open spec fn render_verts(s: Seq<ScrollPosition>) -> Seq<int> {
    s.map_values(|p: ScrollPosition| p.vertical as int)
}

/// Drives a fresh session over a prepared sequence of events exactly as the
/// interactive loop would: render the forced first frame, then handle one
/// event at a time, render when told to, stop at the first escape key.
/// Returns the scroll positions handed to the page source, one per render,
/// in order.
pub fn replay(limits: ViewportLimits, events: &Vec<InputEvent>, step: u32) -> (renders: Vec<
    ScrollPosition,
>)
    requires
        (step as int) * (events@.len() as int) <= u32::MAX,
    ensures
        render_verts(renders@) == session_render_calls(events@, step as int),
        renders@.len() == session_renders(events@),
        forall|k: int| 0 <= k < renders@.len() ==> (#[trigger] renders@[k]).horizontal == 0,
{
    let n = events.len();
    let mut c = Controller::new(limits);
    let mut renders: Vec<ScrollPosition> = Vec::new();
    let first = c.first_frame();
    renders.push(c.scroll);
    let mut i: usize = 0;
    proof {
        assert(events@.skip(0) =~= events@);
        assert(render_verts(renders@) =~= seq![0int]);
    }
    while i < n
        invariant
            n == events@.len(),
            (step as int) * (n as int) <= u32::MAX,
            i <= n,
            c.has_frame,
            c.scroll.horizontal == 0,
            c.scroll.vertical as int <= (step as int) * (i as int),
            render_verts(renders@) + render_calls(
                c.scroll.vertical as int,
                true,
                events@.skip(i as int),
                step as int,
            ) == session_render_calls(events@, step as int),
            forall|k: int| 0 <= k < renders@.len() ==> (#[trigger] renders@[k]).horizontal == 0,
        decreases n - i,
    {
        let event = events[i];
        proof {
            let s = step as int;
            let ii = i as int;
            let nn = n as int;
            assert(0 <= s * (ii + 1) && s * ii + s == s * (ii + 1) && s * ii <= s * (ii + 1) && s
                * (ii + 1) <= s * nn) by (nonlinear_arith)
                requires
                    s >= 0,
                    0 <= ii < nn,
            ;
            assert(events@.skip(ii).drop_first() =~= events@.skip(ii + 1));
        }
        let ghost prev = renders@;
        let directive = c.handle_event(event, step);
        match directive {
            Directive::Quit => {
                proof {
                    assert(render_verts(renders@) + Seq::<int>::empty() =~= render_verts(
                        renders@,
                    ));
                    lemma_one_call_per_render(0, true, events@, step as int);
                }
                return renders;
            },
            Directive::Render => {
                renders.push(c.scroll);
                proof {
                    assert(render_verts(renders@) =~= render_verts(prev).push(
                        c.scroll.vertical as int,
                    ));
                }
            },
            Directive::PaintOnly => {},
        }
        i = i + 1;
    }
    proof {
        assert(events@.skip(n as int) =~= Seq::<InputEvent>::empty());
        assert(render_verts(renders@) + Seq::<int>::empty() =~= render_verts(renders@));
        lemma_one_call_per_render(0, true, events@, step as int);
    }
    renders
}

/// For every sequence of events and every non-negative starting offset, the
/// vertical offset never goes negative: the up key saturates at zero and the
/// down key only adds.
pub proof fn lemma_vertical_never_negative(v: int, events: Seq<InputEvent>, step: int)
    requires
        v >= 0,
        step >= 0,
    ensures
        vertical_after_events(v, events, step) >= 0,
    decreases events.len(),
{
    if events.len() > 0 {
        lemma_vertical_never_negative(
            vertical_after_event(v, events[0], step),
            events.drop_first(),
            step,
        );
    }
}

/// Every event of the sequence is the down key.
pub open spec fn all_down(events: Seq<InputEvent>) -> bool {
    forall|i: int| 0 <= i < events.len() ==> events[i] == InputEvent::Down
}

/// A run of down keys without an intervening up key adds exactly `step` per
/// event: after `n` such events the offset is the start plus `step * n`.
pub proof fn lemma_down_run_exact(v: int, events: Seq<InputEvent>, step: int)
    requires
        all_down(events),
    ensures
        vertical_after_events(v, events, step) == v + step * events.len(),
    decreases events.len(),
{
    if events.len() == 0 {
        assert(step * 0 == 0) by (nonlinear_arith);
    } else {
        assert(events[0] == InputEvent::Down);
        assert(all_down(events.drop_first()));
        lemma_down_run_exact(v + step, events.drop_first(), step);
        assert(step + step * (events.len() - 1) == step * events.len()) by (nonlinear_arith);
    }
}

/// During a run of down keys with a positive step, the offset is strictly
/// increasing: every longer prefix of the run ends strictly lower on the
/// page than every shorter one.
pub proof fn lemma_down_run_increasing(v: int, events: Seq<InputEvent>, step: int, i: int, j: int)
    requires
        all_down(events),
        step > 0,
        0 <= i < j <= events.len(),
    ensures
        vertical_after_events(v, events.take(i), step)
            < vertical_after_events(v, events.take(j), step),
{
    assert(all_down(events.take(i)));
    assert(all_down(events.take(j)));
    lemma_down_run_exact(v, events.take(i), step);
    lemma_down_run_exact(v, events.take(j), step);
    assert(step * i < step * j) by (nonlinear_arith)
        requires step > 0, i < j;
}

/// The forced first frame: a fresh session renders once before it first
/// waits for input, at the starting offset — so with zero input events
/// exactly one render occurs.
pub proof fn lemma_forced_first_frame(events: Seq<InputEvent>, step: int)
    ensures
        session_render_calls(events, step).len() >= 1,
        session_render_calls(events, step)[0] == 0,
        session_renders(Seq::<InputEvent>::empty()) == 1,
{
}

/// An escape key as the very first input ends the session having rendered
/// at most once: the forced first frame, and nothing after it.
pub proof fn lemma_escape_first_at_most_one_render(events: Seq<InputEvent>)
    requires
        events.len() > 0,
        events[0] == InputEvent::Escape,
    ensures
        session_renders(events) == 1,
{
}

/// The render trace is one page-source call per render: the list of offsets
/// handed to the page source is exactly as long as the number of renders.
pub proof fn lemma_one_call_per_render(v: int, has_frame: bool, events: Seq<InputEvent>, step: int)
    ensures
        render_calls(v, has_frame, events, step).len() == renders_until_quit(has_frame, events),
    decreases events.len(),
{
    if events.len() > 0 && events[0] != InputEvent::Escape {
        lemma_one_call_per_render(
            vertical_after_event(v, events[0], step),
            true,
            events.drop_first(),
            step,
        );
    }
}

} // verus!
