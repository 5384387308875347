//! What a surface shows over time: laws on every sequence of events.

use crate::model::{BufferSet, Surface};
use vstd::prelude::*;

verus! {

/// Something that happens to a surface.
pub enum Event {
    /// The renderer draws this frame into its buffer and presents it, with or without the
    /// submission that draws it.
    Present(int, Option<wgpu::SubmissionIndex>),
    /// The compositor paints, and swaps a frame in if there is a new one.
    Composite,
    /// The compositor swaps without asking for a new frame.
    SwapReadyDisplay,
    /// A replacement set of another size is prepared.
    Resize(BufferSet),
    /// The redraw flag is set or cleared.
    Redraw(bool),
}

/// A surface, and the frame that each of its buffers holds: `None` until one was drawn into it.
pub struct Painted {
    pub surface: Surface,
    /// The frames in the buffers of the active set.
    pub active: Seq<Option<int>>,
    /// The frames in the buffers of the replacement, if there is one.
    pub pending: Seq<Option<int>>,
}

/// No buffer of a set was drawn into.
pub open spec fn blank() -> Seq<Option<int>> {
    seq![None, None, None]
}

impl Painted {
    /// A surface just created: no buffer holds a frame.
    pub open spec fn created(self, deep_capture: bool) -> bool {
        &&& self.surface.pending is None
        &&& self.surface.active.unused(deep_capture)
        &&& self.active == blank()
        &&& self.pending == blank()
    }

    /// The frame in the buffer that the compositor reads from.
    pub open spec fn displayed(self) -> Option<int> {
        self.active[self.surface.active.display]
    }

    pub open spec fn step(self, event: Event) -> Painted {
        match event {
            Event::Present(frame, submission) => {
                let rendering = self.surface.render_target().rendering;
                let surface = match submission {
                    Some(submission) => self.surface.present_submission(submission),
                    None => self.surface.present(),
                };
                if self.surface.pending is Some {
                    Painted {
                        surface,
                        pending: self.pending.update(rendering, Some(frame)),
                        ..self
                    }
                } else {
                    Painted { surface, active: self.active.update(rendering, Some(frame)), ..self }
                }
            },
            Event::Composite => self.promote(self.surface.composite()),
            Event::SwapReadyDisplay => self.promote(self.surface.swap_ready_display()),
            Event::Resize(replacement) => Painted {
                surface: self.surface.resize(replacement),
                pending: blank(),
                ..self
            },
            Event::Redraw(redraw_pending) => Painted {
                surface: self.surface.with_redraw_pending(redraw_pending),
                ..self
            },
        }
    }

    /// The surface became `surface`; if it took over its replacement, the frames go with it.
    pub open spec fn promote(self, surface: Surface) -> Painted {
        if self.surface.pending is Some && surface.pending is None {
            Painted { surface, active: self.pending, pending: blank() }
        } else {
            Painted { surface, ..self }
        }
    }

    pub open spec fn after(self, events: Seq<Event>) -> Painted
        decreases events.len(),
    {
        if events.len() == 0 {
            self
        } else {
            self.after(events.drop_last()).step(events.last())
        }
    }
}

/// Every replacement set is an unused one, in the surface's format, and made of other textures than
/// the set on display.
pub open spec fn resizes_are_fresh(start: Painted, events: Seq<Event>, deep_capture: bool) -> bool {
    forall|i: int| 0 <= i < events.len() ==> (#[trigger] events[i] matches Event::Resize(replacement)
        ==> {
        let surface = start.after(events.take(i)).surface;
        &&& replacement.unused(deep_capture)
        &&& replacement.format == surface.active.format
        &&& replacement.apart(surface.active)
    })
}

/// What was presented into a texture set.
pub struct Presented {
    /// The latest frame.
    pub latest: Option<int>,
    /// How many frames were presented since a gated paint showed one.
    pub waiting: nat,
}

impl Presented {
    pub open spec fn nothing() -> Presented {
        Presented { latest: None, waiting: 0 }
    }

    pub open spec fn present(self, frame: int) -> Presented {
        Presented { latest: Some(frame), waiting: self.waiting + 1 }
    }

    pub open spec fn shown(self) -> Presented {
        Presented { waiting: 0, ..self }
    }

    /// The waiting frames, if there are any, can be told from none: generations are counted in a
    /// `u64`, which is where it was after as many frames as it has values.
    pub open spec fn noticeable(self) -> bool {
        self.waiting == 0 || self.waiting % 0x1_0000_0000_0000_0000 != 0
    }
}

/// Which frames should be seen, by what was presented and painted alone.
pub struct Expected {
    /// What was presented into the set on display.
    pub active: Presented,
    /// What was presented into the replacement, if there is one.
    pub pending: Option<Presented>,
    /// The frame on display.
    pub shown: Option<int>,
}

impl Expected {
    pub open spec fn created() -> Expected {
        Expected { active: Presented::nothing(), pending: None, shown: None }
    }

    /// A paint shows the latest frame of the replacement, if one was presented, or else the latest
    /// frame of the set on display, or else what was there. A resize gives up what was presented
    /// into a replacement that was never shown.
    pub open spec fn step(self, event: Event) -> Expected {
        match event {
            Event::Present(frame, _) => match self.pending {
                Some(pending) => Expected { pending: Some(pending.present(frame)), ..self },
                None => Expected { active: self.active.present(frame), ..self },
            },
            Event::Composite | Event::SwapReadyDisplay => if self.replaces() {
                Expected {
                    active: self.pending->0.shown(),
                    pending: None,
                    shown: self.pending->0.latest,
                }
            } else if self.active.waiting > 0 {
                Expected { active: self.active.shown(), shown: self.active.latest, ..self }
            } else {
                self
            },
            Event::Resize(_) => Expected { pending: Some(Presented::nothing()), ..self },
            Event::Redraw(_) => self,
        }
    }

    /// The replacement has a frame to show.
    pub open spec fn replaces(self) -> bool {
        self.pending matches Some(pending) && pending.waiting > 0
    }

    /// There is a frame that a paint should show.
    pub open spec fn waits(self) -> bool {
        self.replaces() || self.active.waiting > 0
    }

    /// A paint can tell whether the set that it looks at has a new frame, as far as it asks: an
    /// ungated swap asks it of the replacement alone.
    pub open spec fn noticeable(self, gated: bool) -> bool {
        if self.replaces() {
            self.pending->0.noticeable()
        } else {
            gated ==> self.active.noticeable()
        }
    }

    pub open spec fn after(self, events: Seq<Event>) -> Expected
        decreases events.len(),
    {
        if events.len() == 0 {
            self
        } else {
            self.after(events.drop_last()).step(events.last())
        }
    }
}

/// The compositor swaps without asking for a new frame only while one waits.
pub open spec fn ungated_swaps_are_due(events: Seq<Event>) -> bool {
    forall|i: int| #![trigger events[i]]
        0 <= i < events.len() && events[i] is SwapReadyDisplay ==> Expected::created().after(
            events.take(i),
        ).waits()
}

/// At no paint so many frames wait that their count has wrapped around to none.
pub open spec fn frames_are_noticed(events: Seq<Event>) -> bool {
    forall|i: int| #![trigger events[i]]
        0 <= i < events.len() && (events[i] is Composite || events[i] is SwapReadyDisplay)
            ==> Expected::created().after(events.take(i)).noticeable(events[i] is Composite)
}

proof fn conditions_hold_before(start: Painted, events: Seq<Event>, deep_capture: bool)
    requires
        events.len() > 0,
    ensures
        resizes_are_fresh(start, events, deep_capture) ==> resizes_are_fresh(
            start,
            events.drop_last(),
            deep_capture,
        ),
        ungated_swaps_are_due(events) ==> ungated_swaps_are_due(events.drop_last()),
        frames_are_noticed(events) ==> frames_are_noticed(events.drop_last()),
        events.take(events.len() - 1) == events.drop_last(),
{
    let before = events.drop_last();
    assert(events.take(events.len() - 1) =~= before);
    assert forall|i: int| 0 <= i < before.len() implies #[trigger] before[i] == events[i]
        && before.take(i) == events.take(i) by {
        assert(before.take(i) =~= events.take(i));
    }
}

proof fn step_keeps_validity(painted: Painted, event: Event, deep_capture: bool)
    requires
        painted.surface.valid(deep_capture),
        event matches Event::Resize(replacement) ==> {
            &&& replacement.unused(deep_capture)
            &&& replacement.format == painted.surface.active.format
            &&& replacement.apart(painted.surface.active)
        },
    ensures
        painted.step(event).surface.valid(deep_capture),
        painted.step(event).surface.active.format == painted.surface.active.format,
{
}

/// However presents, swaps, resizes and redraw requests follow each other, the roles of every
/// texture set stay distinct, all its textures keep its size and format, and the renderer's texture
/// is never the one on display.
pub proof fn surfaces_stay_valid(start: Painted, events: Seq<Event>, deep_capture: bool)
    requires
        start.created(deep_capture),
        resizes_are_fresh(start, events, deep_capture),
    ensures
        start.after(events).surface.valid(deep_capture),
        start.after(events).surface.active.format == start.surface.active.format,
        ({
            let surface = start.after(events).surface;
            surface.render_target().back().texture != surface.active.front().texture
        }),
    decreases events.len(),
{
    if events.len() > 0 {
        conditions_hold_before(start, events, deep_capture);
        surfaces_stay_valid(start, events.drop_last(), deep_capture);
        assert(events.last() == events[events.len() - 1]);
        step_keeps_validity(start.after(events.drop_last()), events.last(), deep_capture);
    }
}

/// A texture set's generations count what waits to be shown of it, and the latest frame is in the
/// ready buffer as long as it waits.
spec fn set_agrees(set: BufferSet, frames: Seq<Option<int>>, presented: Presented) -> bool {
    &&& set.roles_distinct()
    &&& frames.len() == 3
    &&& set.frame_generation == (set.last_composited_generation + presented.waiting)
        % 0x1_0000_0000_0000_0000
    &&& presented.waiting > 0 ==> presented.latest is Some && frames[set.ready] == presented.latest
}

/// What ties the buffers of a surface to the frames that should be seen.
spec fn agrees(painted: Painted, expected: Expected) -> bool {
    &&& set_agrees(painted.surface.active, painted.active, expected.active)
    &&& painted.displayed() == expected.shown
    &&& painted.surface.pending is Some == expected.pending is Some
    &&& painted.surface.pending matches Some(pending) ==> {
        &&& set_agrees(pending, painted.pending, expected.pending->0)
        &&& pending.last_composited_generation == 0
    }
}

proof fn step_keeps_agreement(
    painted: Painted,
    expected: Expected,
    event: Event,
    deep_capture: bool,
)
    requires
        agrees(painted, expected),
        event matches Event::Resize(replacement) ==> replacement.unused(deep_capture),
        event is SwapReadyDisplay ==> expected.waits(),
        event is Composite || event is SwapReadyDisplay ==> expected.noticeable(event is Composite),
    ensures
        agrees(painted.step(event), expected.step(event)),
{
}

proof fn events_keep_agreement(start: Painted, events: Seq<Event>, deep_capture: bool)
    requires
        start.created(deep_capture),
        resizes_are_fresh(start, events, deep_capture),
        ungated_swaps_are_due(events),
        frames_are_noticed(events),
    ensures
        agrees(start.after(events), Expected::created().after(events)),
    decreases events.len(),
{
    if events.len() > 0 {
        let before = events.drop_last();
        conditions_hold_before(start, events, deep_capture);
        events_keep_agreement(start, before, deep_capture);
        assert(events.last() == events[events.len() - 1]);
        step_keeps_agreement(
            start.after(before),
            Expected::created().after(before),
            events.last(),
            deep_capture,
        );
    }
}

/// What the compositor displays is the frame that should be seen, after every sequence of presents,
/// gated paints, ungated swaps while a frame waits, resizes and redraw requests: paints without a
/// new frame hold the last one, a renderer that outruns the compositor is shown at its latest
/// frame, and a replacement is not shown before it has a frame.
pub proof fn display_shows_the_expected_frame(
    start: Painted,
    events: Seq<Event>,
    deep_capture: bool,
)
    requires
        start.created(deep_capture),
        resizes_are_fresh(start, events, deep_capture),
        ungated_swaps_are_due(events),
        frames_are_noticed(events),
    ensures
        start.after(events).displayed() == Expected::created().after(events).shown,
{
    events_keep_agreement(start, events, deep_capture);
}

/// As long as no frame should be seen, the compositor reads from the buffer that it started with.
pub proof fn display_starts_with_the_initial_buffer(
    start: Painted,
    events: Seq<Event>,
    deep_capture: bool,
)
    requires
        start.created(deep_capture),
        resizes_are_fresh(start, events, deep_capture),
        ungated_swaps_are_due(events),
        frames_are_noticed(events),
        Expected::created().after(events).shown is None,
    ensures
        ({
            let active = start.after(events).surface.active;
            &&& active.buffers == start.surface.active.buffers
            &&& active.display == start.surface.active.display
        }),
    decreases events.len(),
{
    if events.len() > 0 {
        let before = events.drop_last();
        conditions_hold_before(start, events, deep_capture);
        events_keep_agreement(start, before, deep_capture);
        assert(events.last() == events[events.len() - 1]);
        display_starts_with_the_initial_buffer(start, before, deep_capture);
    }
}

/// Once a frame is on display, every later sequence of such events leaves some frame on display: no
/// buffer that was never drawn into is shown again.
pub proof fn display_never_goes_blank(
    start: Painted,
    events: Seq<Event>,
    more: Seq<Event>,
    deep_capture: bool,
)
    requires
        start.created(deep_capture),
        resizes_are_fresh(start, events + more, deep_capture),
        ungated_swaps_are_due(events + more),
        frames_are_noticed(events + more),
        start.after(events).displayed() is Some,
    ensures
        start.after(events + more).displayed() is Some,
    decreases more.len(),
{
    let all = events + more;
    if more.len() == 0 {
        assert(all =~= events);
    } else {
        assert(events + more.drop_last() =~= all.drop_last());
        conditions_hold_before(start, all, deep_capture);
        display_never_goes_blank(start, events, more.drop_last(), deep_capture);
        events_keep_agreement(start, all.drop_last(), deep_capture);
        events_keep_agreement(start, all, deep_capture);
    }
}

} // verus!
