//! Scene descriptors: a track, its measure grid, its click-to-advance
//! trigger regions, and a tag naming the drawing rule that renders it.

use vstd::prelude::*;
use crate::model::{Model, CANVAS_HEIGHT, CANVAS_WIDTH};

pub mod for_against;

verus! {

/// An axis-aligned screen region in the drawing's integer coordinate
/// space, open on all four edges.
#[derive(Clone, Copy, Debug, PartialEq, Eq, Structural)]
pub struct Area {
    pub x0: i32,
    pub y0: i32,
    pub x1: i32,
    pub y1: i32,
}

/// The mathematical value of an [`Area`].
#[verifier::ext_equal]
pub struct AreaV {
    pub x0: int,
    pub y0: int,
    pub x1: int,
    pub y1: int,
}

impl View for Area {
    type V = AreaV;

    open spec fn view(&self) -> AreaV {
        AreaV { x0: self.x0 as int, y0: self.y0 as int, x1: self.x1 as int, y1: self.y1 as int }
    }
}

impl AreaV {
    /// The point lies strictly inside the region.
    pub open spec fn contains(self, x: int, y: int) -> bool {
        self.x0 < x < self.x1 && self.y0 < y < self.y1
    }
}

impl Area {
    /// Whether a point lies strictly inside the region.
    pub fn inside(&self, x: i32, y: i32) -> (r: bool)
        ensures
            r == self@.contains(x as int, y as int),
    {
        self.x0 < x && x < self.x1 && self.y0 < y && y < self.y1
    }
}

/// Names the drawing rule a scene is rendered with.  The rules themselves
/// work in floating point on noise-field samples and live with the
/// renderer; a scene only selects one.
#[derive(Clone, Copy, Debug, PartialEq, Eq, Structural)]
pub enum Rule {
    /// A short diagonal stroke per cell, shaded by the noise map alone.
    NoiseStrokes,
    /// Lines woven from both noise sources, swayed by the mid band.
    WovenLines,
    /// Lines swaying with time, shaded by the half phase and the mid band.
    SwayingLines,
    /// A stroked ring pulsing with the bass plus a trailing line.
    PulseRings,
    /// Vertical falling lines shaded by the half phase and the bass.
    FallingLines,
    /// Lines scattered by both noise sources and every subdivision.
    ScatterLines,
}

/// One scene: an audio track, how many measures it spans, whether it
/// loops, the regions a click in which skips ahead, and its drawing rule.
#[derive(Debug)]
pub struct Scene {
    /// Asset path of the scene's audio track.
    pub path: &'static str,
    /// The track loops instead of queueing the next scene when it ends.
    pub loop_: bool,
    /// Number of measures the track is divided into.
    pub measures: usize,
    /// Trigger regions; a click inside the first one skips ahead.
    pub boxes: Vec<Area>,
    /// The drawing rule that renders this scene.
    pub render: Rule,
}

/// The mathematical value of a [`Scene`].
#[verifier::ext_equal]
pub struct SceneV {
    pub path: Seq<char>,
    pub loop_: bool,
    pub measures: int,
    pub boxes: Seq<AreaV>,
    pub render: Rule,
}

impl View for Scene {
    type V = SceneV;

    open spec fn view(&self) -> SceneV {
        SceneV {
            path: self.path@,
            loop_: self.loop_,
            measures: self.measures as int,
            boxes: self.boxes@.map_values(|a: Area| a@),
            render: self.render,
        }
    }
}

impl SceneV {
    /// A scene has at least one measure and at least one trigger region.
    pub open spec fn wf(self) -> bool {
        1 <= self.measures && 1 <= self.boxes.len()
    }
}

/// The mathematical values of a sequence of scenes.
pub open spec fn views_of(scenes: Seq<Scene>) -> Seq<SceneV> {
    scenes.map_values(|s: Scene| s@)
}

/// Screen x of grid column `i`: cells are centred on the canvas and
/// spread `scaling` apart.
pub open spec fn scaled_x(i: int, scaling: int) -> int {
    (i - (CANVAS_WIDTH as int) / 2) * scaling
}

/// Screen y of grid row `j`.
pub open spec fn scaled_y(j: int, scaling: int) -> int {
    (j - (CANVAS_HEIGHT as int) / 2) * scaling
}

/// Screen position of a grid cell.
pub fn scale_coordinates(model: &Model, i: usize, j: usize) -> (p: (i32, i32))
    requires
        model@.wf(),
        i < CANVAS_WIDTH,
        j < CANVAS_HEIGHT,
    ensures
        p.0 == scaled_x(i as int, model@.scaling),
        p.1 == scaled_y(j as int, model@.scaling),
{
    proof {
        assert((i - (CANVAS_WIDTH as int) / 2) * model@.scaling <= 10000000
            && (i - (CANVAS_WIDTH as int) / 2) * model@.scaling >= -10000000) by (nonlinear_arith)
            requires
                0 <= i < CANVAS_WIDTH,
                0 <= model@.scaling <= crate::model::MAX_SCALING,
        ;
        assert((j - (CANVAS_HEIGHT as int) / 2) * model@.scaling <= 10000000
            && (j - (CANVAS_HEIGHT as int) / 2) * model@.scaling >= -10000000) by (nonlinear_arith)
            requires
                0 <= j < CANVAS_HEIGHT,
                0 <= model@.scaling <= crate::model::MAX_SCALING,
        ;
    }
    let x = (i as i32 - (CANVAS_WIDTH as i32) / 2) * (model.scaling as i32);
    let y = (j as i32 - (CANVAS_HEIGHT as i32) / 2) * (model.scaling as i32);
    (x, y)
}

/// Whether a grid cell's screen position falls inside the active scene's
/// first trigger region; drawing rules force such cells to full
/// intensity as the click-to-skip affordance.
pub fn cell_in_trigger(model: &Model, i: usize, j: usize) -> (r: bool)
    requires
        model@.wf(),
        i < CANVAS_WIDTH,
        j < CANVAS_HEIGHT,
    ensures
        r == model@.active().boxes[0].contains(
            scaled_x(i as int, model@.scaling),
            scaled_y(j as int, model@.scaling),
        ),
{
    let (x, y) = scale_coordinates(model, i, j);
    model.scenes[model.current_scene].boxes[0].inside(x, y)
}

} // verus!
