//! The plain border style: one flat color over the whole border.
use vstd::prelude::*;

use crate::base_draw::{
    clear_ops, outcome_view, BaseDraw, BaseDrawView, DrawErr, DrawOp, DrawStatus, PaintRect,
};
use crate::borders::{Borders, BordersView};
use crate::color::Color;
use crate::geometry::Geometry;

verus! {

/// Where a drawing pass stands.
#[derive(Clone, Copy, Debug, PartialEq, Eq, Structural)]
pub enum Stage {
    /// Nothing is queued yet.
    Ready,
    /// The rectangle is queued; its status is awaited.
    Defined,
    /// The fill is queued; its status is awaited.
    Filled,
}

/// What comes of handing a status to a pass.
pub enum DrawStep<D> {
    /// The pass goes on: the engine is to run what it queued.
    Continue(D),
    /// The pass is over.
    Done(Result<Borders, DrawErr>),
}

/// A border style: it queues operations for the engine and goes on, or stops,
/// on each status that the engine reports. A pass ends with the border it was
/// given, finished or handed back with the error.
pub trait Drawable: Sized {
    /// The border the pass paints.
    spec fn borders_spec(&self) -> BordersView;

    /// Begins painting the border, which the compositor places at
    /// `border_g`.
    fn draw(self, border_g: Geometry) -> (d: Self)
        ensures
            d.borders_spec() == self.borders_spec(),
    ;

    /// Goes on after the engine ran what was queued and reported `status`.
    fn resume(self, status: DrawStatus) -> (r: DrawStep<Self>)
        ensures
            match r {
                DrawStep::Continue(d) => d.borders_spec() == self.borders_spec(),
                DrawStep::Done(out) => match outcome_view(out) {
                    Ok(b) => b == self.borders_spec() && status == DrawStatus::Success,
                    Err((code, b)) => b == self.borders_spec() && status == DrawStatus::Error(code),
                },
            },
            status matches DrawStatus::Error(code) ==> r matches DrawStep::Done(Err(_)),
    ;
}

/// The rectangle that the plain style fills, from the border's own
/// geometry: moved up and left by half the thickness, rounded down, and grown
/// by the whole thickness.
pub open spec fn paint_rect_spec(original: Geometry, thickness: u32) -> PaintRect {
    PaintRect {
        x: (original.origin.x - thickness / 2) as i64,
        y: (original.origin.y - thickness / 2) as i64,
        w: (original.size.w + thickness) as u64,
        h: (original.size.h + thickness) as u64,
    }
}

/// What a plain pass holds.
pub struct SimpleDrawView {
    pub base: BaseDrawView,
    pub color: Color,
    pub thickness: u32,
    pub stage: Stage,
}

/// What comes of a step of a plain pass.
pub enum StepView {
    Continue(SimpleDrawView),
    Done(Result<BordersView, (u32, BordersView)>),
}

/// A plain pass once `draw` was called: it queues a clear, the color and the
/// rectangle worked out from the border's own geometry, which is also the
/// geometry the border has when the pass ends. A pass that already began stays
/// as it is.
pub open spec fn draw_spec(s: SimpleDrawView) -> SimpleDrawView {
    match s.stage {
        Stage::Ready => SimpleDrawView {
            base: BaseDrawView {
                pending: s.base.pending + clear_ops() + seq![
                    DrawOp::SetSource(s.color),
                    DrawOp::Rectangle(paint_rect_spec(s.base.borders.geometry, s.thickness)),
                ],
                ..s.base
            },
            stage: Stage::Defined,
            ..s
        },
        _ => s,
    }
}

/// A plain pass after the engine reported `status`: any error ends it with
/// the border; success after the rectangle queues the fill; success after the
/// fill ends it with the border, at the geometry it had when the pass began
/// (nothing in a pass moves it). A pass that has not begun stays as it is on
/// success.
pub open spec fn resume_spec(s: SimpleDrawView, status: DrawStatus) -> StepView {
    match s.stage {
        Stage::Ready => match status {
            DrawStatus::Success => StepView::Continue(s),
            DrawStatus::Error(code) => StepView::Done(Err((code, s.base.borders))),
        },
        Stage::Defined => match status {
            DrawStatus::Success => StepView::Continue(
                SimpleDrawView {
                    base: BaseDrawView { pending: s.base.pending.push(DrawOp::Fill), ..s.base },
                    stage: Stage::Filled,
                    ..s
                },
            ),
            DrawStatus::Error(code) => StepView::Done(Err((code, s.base.borders))),
        },
        Stage::Filled => match status {
            DrawStatus::Success => StepView::Done(Ok(s.base.borders)),
            DrawStatus::Error(code) => StepView::Done(Err((code, s.base.borders))),
        },
    }
}

/// Draws the border with one flat color.
pub struct SimpleDraw {
    base: BaseDraw,
    color: Color,
    thickness: u32,
    stage: Stage,
}

impl View for SimpleDraw {
    type V = SimpleDrawView;

    closed spec fn view(&self) -> SimpleDrawView {
        SimpleDrawView { base: self.base@, color: self.color, thickness: self.thickness, stage: self.stage }
    }
}

/// What a step of a plain pass came to.
pub open spec fn step_view(r: DrawStep<SimpleDraw>) -> StepView {
    match r {
        DrawStep::Continue(d) => StepView::Continue(d@),
        DrawStep::Done(out) => StepView::Done(outcome_view(out)),
    }
}

impl SimpleDraw {
    /// A plain pass over `base`, painting `color` for a border of `thickness`.
    pub fn new(base: BaseDraw, color: Color, thickness: u32) -> (d: SimpleDraw)
        ensures
            d@ == (SimpleDrawView { base: base@, color, thickness, stage: Stage::Ready }),
    {
        SimpleDraw { base, color, thickness, stage: Stage::Ready }
    }

    /// Begins the pass (see `draw_spec`). The rectangle comes from the
    /// border's own geometry, whatever `border_g` is.
    pub fn draw(self, border_g: Geometry) -> (d: SimpleDraw)
        ensures
            d@ == draw_spec(self@),
    {
        let mut this = self;
        match this.stage {
            Stage::Ready => {
                let original = this.base.borders().get_geometry();
                let half: u32 = this.thickness / 2;
                let rect = PaintRect {
                    x: original.origin.x as i64 - half as i64,
                    y: original.origin.y as i64 - half as i64,
                    w: original.size.w as u64 + this.thickness as u64,
                    h: original.size.h as u64 + this.thickness as u64,
                };
                let SimpleDraw { base, color, thickness, stage: _ } = this;
                let mut base = base;
                base.clear();
                base.set_color_source(color);
                base.rectangle(rect);
                assert(base@.pending =~= draw_spec(self@).base.pending);
                SimpleDraw { base, color, thickness, stage: Stage::Defined }
            },
            _ => this,
        }
    }

    /// Goes on after the engine ran what was queued and reported `status`
    /// (see `resume_spec`).
    pub fn resume(self, status: DrawStatus) -> (r: DrawStep<SimpleDraw>)
        ensures
            step_view(r) == resume_spec(self@, status),
    {
        let stage = self.stage;
        let SimpleDraw { base, color, thickness, stage: _ } = self;
        match stage {
            Stage::Ready => match base.check_cairo(status) {
                Err(e) => DrawStep::Done(Err(e)),
                Ok(base) => DrawStep::Continue(SimpleDraw { base, color, thickness, stage }),
            },
            Stage::Defined => match base.check_cairo(status) {
                Err(e) => DrawStep::Done(Err(e)),
                Ok(base) => {
                    let mut base = base;
                    base.fill();
                    DrawStep::Continue(SimpleDraw { base, color, thickness, stage: Stage::Filled })
                },
            },
            Stage::Filled => match base.check_cairo(status) {
                Err(e) => DrawStep::Done(Err(e)),
                Ok(base) => {
                    let original = base.borders().get_geometry();
                    DrawStep::Done(Ok(base.finish(original)))
                },
            },
        }
    }

    /// Hands the queued operations to the engine, in order.
    pub fn take_ops(&mut self) -> (ops: Vec<DrawOp>)
        ensures
            ops@ == old(self)@.base.pending,
            final(self)@ == (SimpleDrawView {
                base: BaseDrawView { pending: Seq::empty(), ..old(self)@.base },
                ..old(self)@
            }),
    {
        self.base.take_ops()
    }

    /// The buffer of the border, for the engine to paint into.
    pub fn surface(&mut self) -> (b: &mut [u8])
        ensures
            b@ == old(self)@.base.borders.buffer,
            final(self)@ == (SimpleDrawView {
                base: BaseDrawView {
                    borders: BordersView { buffer: final(b)@, ..old(self)@.base.borders },
                    ..old(self)@.base
                },
                ..old(self)@
            }),
    {
        self.base.surface()
    }
}

impl Drawable for SimpleDraw {
    open spec fn borders_spec(&self) -> BordersView {
        self@.base.borders
    }

    fn draw(self, border_g: Geometry) -> (d: SimpleDraw) {
        SimpleDraw::draw(self, border_g)
    }

    fn resume(self, status: DrawStatus) -> (r: DrawStep<SimpleDraw>) {
        SimpleDraw::resume(self, status)
    }
}

/// A plain pass that the engine carries out without error ends with the
/// border it began with, at the geometry it had then, and not at the rectangle
/// that was filled.
pub proof fn lemma_successful_pass_keeps_geometry(
    base: BaseDrawView,
    color: Color,
    thickness: u32,
)
    ensures
        ({
            let s0 = SimpleDrawView { base, color, thickness, stage: Stage::Ready };
            let s1 = draw_spec(s0);
            &&& resume_spec(s1, DrawStatus::Success) matches StepView::Continue(s2)
            &&& resume_spec(s2, DrawStatus::Success) == StepView::Done(Ok(base.borders))
        }),
{
    let s0 = SimpleDrawView { base, color, thickness, stage: Stage::Ready };
    let s1 = draw_spec(s0);
    assert(resume_spec(s1, DrawStatus::Success) matches StepView::Continue(_));
}

} // verus!
