//! The shipped playlist: six scenes over three tracks, every one looping
//! until a click inside its trigger region queues the next.

use vstd::prelude::*;
use crate::scenes::{Area, AreaV, Rule, Scene, SceneV, views_of};

verus! {

/// The wide central trigger region shared by the first three scenes.
pub open spec fn wide_area() -> AreaV {
    AreaV { x0: -100, y0: -100, x1: 100, y1: 100 }
}

/// The small central trigger region of the later scenes.
pub open spec fn small_area() -> AreaV {
    AreaV { x0: -5, y0: -5, x1: 5, y1: 5 }
}

/// The empty placeholder region paired with a small trigger.
pub open spec fn empty_area() -> AreaV {
    AreaV { x0: 0, y0: 0, x1: 0, y1: 0 }
}

/// The playlist, scene by scene.
pub open spec fn playlist() -> Seq<SceneV> {
    seq![
        SceneV {
            path: "/bu/2.mp3"@,
            loop_: true,
            measures: 8,
            boxes: seq![wide_area()],
            render: Rule::NoiseStrokes,
        },
        SceneV {
            path: "/bu/2.mp3"@,
            loop_: true,
            measures: 8,
            boxes: seq![wide_area()],
            render: Rule::WovenLines,
        },
        SceneV {
            path: "/fa/1.mp3"@,
            loop_: true,
            measures: 14,
            boxes: seq![wide_area()],
            render: Rule::SwayingLines,
        },
        SceneV {
            path: "/fa/1.mp3"@,
            loop_: true,
            measures: 14,
            boxes: seq![small_area(), empty_area()],
            render: Rule::PulseRings,
        },
        SceneV {
            path: "/fa/2.mp3"@,
            loop_: true,
            measures: 14,
            boxes: seq![small_area(), empty_area()],
            render: Rule::FallingLines,
        },
        SceneV {
            path: "/fa/2.mp3"@,
            loop_: true,
            measures: 14,
            boxes: seq![AreaV { x0: 5, y0: 5, x1: 10, y1: 10 }, empty_area()],
            render: Rule::ScatterLines,
        },
    ]
}

/// Every scene of the playlist is well formed.
pub proof fn lemma_playlist_wf()
    ensures
        playlist().len() == 6,
        forall|i: int| 0 <= i < playlist().len() ==> (#[trigger] playlist()[i]).wf(),
{
    assert forall|i: int| 0 <= i < playlist().len() implies (#[trigger] playlist()[i]).wf() by {
        if i == 0 {
            assert(playlist()[0].wf());
        } else if i == 1 {
            assert(playlist()[1].wf());
        } else if i == 2 {
            assert(playlist()[2].wf());
        } else if i == 3 {
            assert(playlist()[3].wf());
        } else if i == 4 {
            assert(playlist()[4].wf());
        } else {
            assert(playlist()[5].wf());
        }
    }
}

fn one_box(a: Area) -> (v: Vec<Area>)
    ensures
        v@ =~= seq![a],
{
    let mut v: Vec<Area> = Vec::new();
    v.push(a);
    v
}

fn two_boxes(a: Area, b: Area) -> (v: Vec<Area>)
    ensures
        v@ =~= seq![a, b],
{
    let mut v: Vec<Area> = Vec::new();
    v.push(a);
    v.push(b);
    v
}

/// Builds the playlist as concrete scene values.
pub fn scenes() -> (v: Vec<Scene>)
    ensures
        views_of(v@) == playlist(),
{
    let wide = Area { x0: -100, y0: -100, x1: 100, y1: 100 };
    let small = Area { x0: -5, y0: -5, x1: 5, y1: 5 };
    let empty = Area { x0: 0, y0: 0, x1: 0, y1: 0 };
    let mut v: Vec<Scene> = Vec::new();
    v.push(
        Scene {
            path: "/bu/2.mp3",
            loop_: true,
            measures: 8,
            boxes: one_box(wide),
            render: Rule::NoiseStrokes,
        },
    );
    v.push(
        Scene {
            path: "/bu/2.mp3",
            loop_: true,
            measures: 8,
            boxes: one_box(wide),
            render: Rule::WovenLines,
        },
    );
    v.push(
        Scene {
            path: "/fa/1.mp3",
            loop_: true,
            measures: 14,
            boxes: one_box(wide),
            render: Rule::SwayingLines,
        },
    );
    v.push(
        Scene {
            path: "/fa/1.mp3",
            loop_: true,
            measures: 14,
            boxes: two_boxes(small, empty),
            render: Rule::PulseRings,
        },
    );
    v.push(
        Scene {
            path: "/fa/2.mp3",
            loop_: true,
            measures: 14,
            boxes: two_boxes(small, empty),
            render: Rule::FallingLines,
        },
    );
    v.push(
        Scene {
            path: "/fa/2.mp3",
            loop_: true,
            measures: 14,
            boxes: two_boxes(Area { x0: 5, y0: 5, x1: 10, y1: 10 }, empty),
            render: Rule::ScatterLines,
        },
    );
    proof {
        assert(views_of(v@) =~~= playlist());
    }
    v
}

} // verus!
