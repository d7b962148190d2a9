//! The beat/scene tracker.
//!
//! The tracker owns the playlist and the playback cursor: which scene is
//! active, which measure of it is playing, the beat phase seen on the
//! previous tick, whether a scene advance is pending, and which of the
//! two audio slots holds the active track.  Each tick it is handed the
//! current beat phase; a drop below the previous phase means the measure
//! wrapped, which advances the measure count and, once a non-looping
//! scene completes or a click queued an advance, switches to the next
//! scene at that measure boundary.

use vstd::prelude::*;
use crate::modulation::PHASE_ONE;
use crate::scenes::{Scene, SceneV, views_of};
use crate::scenes::for_against;

verus! {

/// Width of the drawing grid, in cells.
pub const CANVAS_WIDTH: usize = 20;

/// Height of the drawing grid, in cells.
pub const CANVAS_HEIGHT: usize = 20;

/// Screen distance between neighbouring grid cells.
pub const SCALING: usize = 40;

/// Largest cell scaling the coordinate math accepts; keeps scaled
/// coordinates within `i32`.
pub const MAX_SCALING: usize = 1000000;

/// Playback state: the playlist and the cursor into it.
pub struct Model {
    /// The immutable playlist.
    pub scenes: Vec<Scene>,
    /// Index of the active scene.
    pub current_scene: usize,
    /// Index of the measure of the active scene now playing.
    pub current_measure: usize,
    /// A scene advance was queued and fires at the next measure wrap.
    pub queue_next: bool,
    /// The beat phase seen on the previous tick, in fixed-point units.
    pub last_whole: u32,
    /// Which of the two audio slots holds the active track.
    pub current_element: usize,
    /// Screen distance between neighbouring grid cells.
    pub scaling: usize,
}

/// The mathematical value of a [`Model`].
#[verifier::ext_equal]
pub struct ModelV {
    pub scenes: Seq<SceneV>,
    pub scene: int,
    pub measure: int,
    pub pending: bool,
    pub last_whole: int,
    pub slot: int,
    pub scaling: int,
}

impl View for Model {
    type V = ModelV;

    open spec fn view(&self) -> ModelV {
        ModelV {
            scenes: views_of(self.scenes@),
            scene: self.current_scene as int,
            measure: self.current_measure as int,
            pending: self.queue_next,
            last_whole: self.last_whole as int,
            slot: self.current_element as int,
            scaling: self.scaling as int,
        }
    }
}

impl ModelV {
    /// The playlist is non-empty and made of well-formed scenes, and the
    /// cursor points inside it: the scene index is in range, the measure
    /// index is within the active scene, the remembered phase is a valid
    /// fixed-point fraction, and the active slot is one of the two.
    pub open spec fn wf(self) -> bool {
        &&& 0 < self.scenes.len()
        &&& 0 <= self.scene < self.scenes.len()
        &&& forall|i: int| 0 <= i < self.scenes.len() ==> (#[trigger] self.scenes[i]).wf()
        &&& 0 <= self.measure < self.scenes[self.scene].measures
        &&& 0 <= self.last_whole < PHASE_ONE
        &&& self.slot == 0 || self.slot == 1
        &&& 0 <= self.scaling <= MAX_SCALING
    }

    /// The scene the cursor points at.
    pub open spec fn active(self) -> SceneV {
        self.scenes[self.scene]
    }
}

/// The state a fresh tracker starts in: the shipped playlist, first
/// scene, first measure, phase zero, nothing pending, first slot active.
pub open spec fn init_state() -> ModelV {
    ModelV {
        scenes: for_against::playlist(),
        scene: 0,
        measure: 0,
        pending: false,
        last_whole: 0,
        slot: 0,
        scaling: SCALING as int,
    }
}

impl Model {
    /// A tracker over the shipped playlist.
    pub fn new() -> (m: Model)
        ensures
            m@ == init_state(),
            m@.wf(),
    {
        let m = Model {
            scenes: for_against::scenes(),
            current_scene: 0,
            current_measure: 0,
            queue_next: false,
            last_whole: 0,
            current_element: 0,
            scaling: SCALING,
        };
        proof {
            for_against::lemma_playlist_wf();
        }
        m
    }

    /// The active scene.
    pub fn current_scene(&self) -> (s: &Scene)
        requires
            self@.wf(),
        ensures
            s@ == self@.active(),
    {
        &self.scenes[self.current_scene]
    }
}

/// What a tick does to the world outside the tracker.
#[derive(Clone, Copy, Debug, PartialEq, Eq)]
pub enum TickAction {
    /// Keep playing the current track.
    Stay,
    /// The tracker switched scenes: stop the track in the now-inactive
    /// slot, load the track of the scene at `preload` into it if there is
    /// one, and start the newly active slot.
    Switch { preload: Option<usize> },
}

/// The tick observed a phase below the one remembered: the measure
/// wrapped around.
pub open spec fn wraps(pre: ModelV, phase: int) -> bool {
    phase < pre.last_whole
}

/// The wrap that this tick observed finishes the active scene's last
/// measure.
pub open spec fn completes_scene(pre: ModelV) -> bool {
    pre.measure + 1 == pre.active().measures
}

/// Whether an advance is queued once the wrap has been counted: it
/// already was, or the active scene just completed and does not loop.
pub open spec fn pending_after_count(pre: ModelV) -> bool {
    pre.pending || (completes_scene(pre) && !pre.active().loop_)
}

/// The tick switches scenes: the measure wrapped, an advance is queued,
/// and a next scene exists.
pub open spec fn switches(pre: ModelV, phase: int) -> bool {
    wraps(pre, phase) && pending_after_count(pre) && pre.scene + 1 < pre.scenes.len()
}

/// The tracker state after one tick at `phase`.
///
/// Without a wrap the tick only remembers the phase.  A wrap advances the
/// measure, resetting it and queueing an advance when a non-looping scene
/// completes.  A queued advance is consumed at the wrap: if a next scene
/// exists the cursor moves to it with measure and phase reset to zero and
/// the audio slots swapped; at the end of the playlist it is dropped.
pub open spec fn tick_spec(pre: ModelV, phase: int) -> ModelV {
    if !wraps(pre, phase) {
        ModelV { last_whole: phase, ..pre }
    } else if switches(pre, phase) {
        ModelV {
            scene: pre.scene + 1,
            measure: 0,
            pending: false,
            last_whole: 0,
            slot: 1 - pre.slot,
            ..pre
        }
    } else {
        ModelV {
            measure: if completes_scene(pre) { 0 } else { pre.measure + 1 },
            pending: false,
            last_whole: phase,
            ..pre
        }
    }
}

/// The action a tick at `phase` asks of the audio layer: on a scene
/// switch, which scene's track to preload into the vacated slot.
pub open spec fn tick_action(pre: ModelV, phase: int) -> TickAction {
    if switches(pre, phase) {
        TickAction::Switch {
            preload: if pre.scene + 2 < pre.scenes.len() {
                Some((pre.scene + 2) as usize)
            } else {
                None
            },
        }
    } else {
        TickAction::Stay
    }
}

/// One tick of the tracker: count a measure wrap, consume a queued
/// advance at the measure boundary, and say what the audio layer must do.
pub fn update(model: &mut Model, phase: u32) -> (action: TickAction)
    requires
        old(model)@.wf(),
        phase < PHASE_ONE,
    ensures
        final(model)@ == tick_spec(old(model)@, phase as int),
        action == tick_action(old(model)@, phase as int),
        final(model)@.wf(),
        final(model).scenes == old(model).scenes,
        final(model).scaling == old(model).scaling,
{
    let mut action = TickAction::Stay;
    let mut new_last = phase;
    if phase < model.last_whole {
        let measures = model.scenes[model.current_scene].measures;
        let loops = model.scenes[model.current_scene].loop_;
        model.current_measure = model.current_measure + 1;
        if model.current_measure == measures {
            model.current_measure = 0;
            if !loops {
                model.queue_next = true;
            }
        }
        if model.queue_next {
            model.queue_next = false;
            if model.current_scene < model.scenes.len() - 1 {
                model.current_scene = model.current_scene + 1;
                model.current_measure = 0;
                action = TickAction::Switch {
                    preload: if model.current_scene + 1 < model.scenes.len() {
                        Some(model.current_scene + 1)
                    } else {
                        None
                    },
                };
                model.current_element = 1 - model.current_element;
                new_last = 0;
            }
        }
    }
    model.last_whole = new_last;
    action
}

/// The tracker state after a click at `(x, y)`: an advance is queued if
/// the click falls inside the active scene's first trigger region, and
/// nothing else changes.
pub open spec fn click_spec(pre: ModelV, x: int, y: int) -> ModelV {
    if pre.active().boxes[0].contains(x, y) {
        ModelV { pending: true, ..pre }
    } else {
        pre
    }
}

/// A click: queue a scene advance when it lands inside the active
/// scene's first trigger region, whatever the current phase or measure.
pub fn mouse_pressed(model: &mut Model, x: i32, y: i32)
    requires
        old(model)@.wf(),
    ensures
        final(model)@ == click_spec(old(model)@, x as int, y as int),
        final(model)@.wf(),
        final(model).scenes == old(model).scenes,
{
    if model.scenes[model.current_scene].boxes[0].inside(x, y) {
        model.queue_next = true;
    }
}

/// Every scene of a playlist is well formed.
pub open spec fn scenes_valid(scenes: Seq<SceneV>) -> bool {
    &&& 0 < scenes.len()
    &&& forall|i: int| 0 <= i < scenes.len() ==> (#[trigger] scenes[i]).wf()
}

impl Model {
    /// A tracker over a caller-supplied playlist, started like a fresh
    /// one; refused exactly when the playlist is empty or some scene has
    /// no measure or no trigger region.
    pub fn with_scenes(scenes: Vec<Scene>) -> (r: Option<Model>)
        ensures
            r is Some <==> scenes_valid(views_of(scenes@)),
            r matches Some(m) ==> m@ == (ModelV {
                scenes: views_of(scenes@),
                scene: 0,
                measure: 0,
                pending: false,
                last_whole: 0,
                slot: 0,
                scaling: SCALING as int,
            }),
            r matches Some(m) ==> m@.wf(),
    {
        if scenes.len() == 0 {
            return None;
        }
        let mut i: usize = 0;
        while i < scenes.len()
            invariant
                i <= scenes.len(),
                forall|j: int| 0 <= j < i ==> (#[trigger] views_of(scenes@)[j]).wf(),
            decreases scenes.len() - i,
        {
            if scenes[i].measures == 0 || scenes[i].boxes.len() == 0 {
                proof {
                    assert(!views_of(scenes@)[i as int].wf());
                }
                return None;
            }
            i = i + 1;
        }
        Some(
            Model {
                scenes,
                current_scene: 0,
                current_measure: 0,
                queue_next: false,
                last_whole: 0,
                current_element: 0,
                scaling: SCALING,
            },
        )
    }
}

/// A measure is counted exactly once per observed wraparound of the
/// phase.  A tick whose phase did not drop below the remembered one —
/// however many such ticks occur between wraparounds — leaves the
/// measure, the scene and the queued advance untouched and only
/// remembers the new phase.  A tick that does observe a wrap steps the
/// measure by exactly one: to the next measure, or to zero when the
/// scene's last measure finished or a scene switch fired.
pub proof fn lemma_measure_counts_wraps(pre: ModelV, phase: int)
    requires
        pre.wf(),
        0 <= phase < PHASE_ONE,
    ensures
        !wraps(pre, phase) ==> tick_spec(pre, phase) == (ModelV { last_whole: phase, ..pre }),
        wraps(pre, phase) && !switches(pre, phase) && !completes_scene(pre) ==> tick_spec(
            pre,
            phase,
        ).measure == pre.measure + 1,
        wraps(pre, phase) && (switches(pre, phase) || completes_scene(pre)) ==> tick_spec(
            pre,
            phase,
        ).measure == 0,
{
}

/// The tracker state after a whole run of ticks, first phase first.
pub open spec fn run_spec(pre: ModelV, phases: Seq<int>) -> ModelV
    decreases phases.len(),
{
    if phases.len() == 0 {
        pre
    } else {
        run_spec(tick_spec(pre, phases[0]), phases.drop_first())
    }
}

/// The multi-tick face of the wrap count: across any run of ticks whose
/// phases never drop — the first at least the remembered phase, each
/// next at least its predecessor — no wrap is observed, so however many
/// ticks occur the measure, the scene, the slot and the queued advance
/// all stay put.
pub proof fn lemma_no_wrap_run_is_quiet(pre: ModelV, phases: Seq<int>)
    requires
        pre.wf(),
        forall|k: int| 0 <= k < phases.len() ==> 0 <= #[trigger] phases[k] < PHASE_ONE,
        phases.len() > 0 ==> phases[0] >= pre.last_whole,
        forall|k: int| 0 <= k < phases.len() - 1 ==> #[trigger] phases[k] <= phases[k + 1],
    ensures
        run_spec(pre, phases).measure == pre.measure,
        run_spec(pre, phases).scene == pre.scene,
        run_spec(pre, phases).pending == pre.pending,
        run_spec(pre, phases).slot == pre.slot,
        run_spec(pre, phases).scenes == pre.scenes,
    decreases phases.len(),
{
    if phases.len() > 0 {
        let mid = tick_spec(pre, phases[0]);
        assert(!wraps(pre, phases[0]));
        assert(mid.wf());
        let rest = phases.drop_first();
        assert forall|k: int| 0 <= k < rest.len() - 1 implies #[trigger] rest[k] <= rest[k + 1] by {
            assert(rest[k] == phases[k + 1]);
            assert(rest[k + 1] == phases[k + 2]);
        }
        lemma_no_wrap_run_is_quiet(mid, rest);
    }
}

/// When the last measure of a non-looping scene completes, the tracker
/// switches scenes exactly once, at that very wrap: the cursor moves to
/// the next scene, and the measure and the phase both reset to zero on
/// the same transition.
pub proof fn lemma_completion_switches(pre: ModelV, phase: int)
    requires
        pre.wf(),
        0 <= phase < PHASE_ONE,
        wraps(pre, phase),
        completes_scene(pre),
        !pre.active().loop_,
        pre.scene + 1 < pre.scenes.len(),
    ensures
        tick_spec(pre, phase) == (ModelV {
            scene: pre.scene + 1,
            measure: 0,
            pending: false,
            last_whole: 0,
            slot: 1 - pre.slot,
            ..pre
        }),
{
}

/// An advance queued by a click fires at the next observed wraparound,
/// and exactly once: the tick that sees the wrap switches scenes and
/// clears the queue, so a second switch would need a second queueing.
pub proof fn lemma_pending_fires_at_next_wrap(pre: ModelV, phase: int)
    requires
        pre.wf(),
        0 <= phase < PHASE_ONE,
        pre.pending,
        wraps(pre, phase),
        pre.scene + 1 < pre.scenes.len(),
    ensures
        tick_spec(pre, phase).scene == pre.scene + 1,
        tick_spec(pre, phase).measure == 0,
        tick_spec(pre, phase).last_whole == 0,
        !tick_spec(pre, phase).pending,
{
}

/// The scene index never leaves the playlist: every tick preserves
/// well-formedness, the index stays below the playlist length, and an
/// advance queued on the last scene is dropped without moving the
/// cursor.
pub proof fn lemma_scene_index_bounded(pre: ModelV, phase: int)
    requires
        pre.wf(),
        0 <= phase < PHASE_ONE,
    ensures
        tick_spec(pre, phase).wf(),
        tick_spec(pre, phase).scene < pre.scenes.len(),
        pre.scene + 1 >= pre.scenes.len() ==> tick_spec(pre, phase).scene == pre.scene,
{
}

/// A click queues an advance exactly when it lands in the active scene's
/// first trigger region, whatever phase or measure the tracker is at,
/// and an advance already queued is never lost by a further click.
pub proof fn lemma_click_queues_advance(pre: ModelV, x: int, y: int)
    requires
        pre.wf(),
    ensures
        click_spec(pre, x, y).pending == (pre.pending || pre.active().boxes[0].contains(x, y)),
        click_spec(pre, x, y) == (ModelV { pending: click_spec(pre, x, y).pending, ..pre }),
        click_spec(pre, x, y).wf(),
{
}

} // verus!
