//! A drawing session on one border's buffer. The engine that paints does not
//! stop on an error: it records a status, which is read after each operation
//! that can fail. A session queues the operations for the engine and decides
//! from each status it reports whether drawing goes on.
use vstd::prelude::*;

use crate::borders::{Borders, BordersView};
use crate::color::Color;
use crate::geometry::Geometry;

verus! {

/// A rectangle in buffer coordinates, wide enough for any border rectangle
/// grown or moved by a thickness.
#[derive(Clone, Copy, Debug, PartialEq, Eq, Structural)]
pub struct PaintRect {
    pub x: i64,
    pub y: i64,
    pub w: u64,
    pub h: u64,
}

/// One operation for the engine.
#[derive(Clone, Copy, Debug, PartialEq, Eq, Structural)]
pub enum DrawOp {
    /// Paint with this color from now on.
    SetSource(Color),
    /// Paint the whole buffer with the current color.
    Paint,
    /// Add a rectangle to the current path.
    Rectangle(PaintRect),
    /// Fill the current path with the current color.
    Fill,
}

/// What the engine reports after it ran the operations it was given.
#[derive(Clone, Copy, Debug, PartialEq, Eq, Structural)]
pub enum DrawStatus {
    Success,
    /// The engine's code for what went wrong.
    Error(u32),
}

/// The different ways drawing can go wrong.
pub enum DrawErr {
    /// The engine reported the error with this code; the border, perhaps
    /// partly painted, is handed back.
    Engine(u32, Borders),
}

impl DrawErr {
    /// The engine's code and the border handed back.
    pub open spec fn view_parts(&self) -> (u32, BordersView) {
        match self {
            DrawErr::Engine(code, b) => (*code, b@),
        }
    }
}

/// What a pass ended with: the border, or the engine's code and the border.
pub open spec fn outcome_view(r: Result<Borders, DrawErr>) -> Result<BordersView, (u32, BordersView)> {
    match r {
        Ok(b) => Ok(b@),
        Err(e) => Err(e.view_parts()),
    }
}

/// What a drawing session holds: its border and the operations queued for the
/// engine.
pub struct BaseDrawView {
    pub borders: BordersView,
    pub pending: Seq<DrawOp>,
}

/// A drawing session: one border, and the operations queued for the engine
/// that paints into its buffer.
pub struct BaseDraw {
    borders: Borders,
    pending: Vec<DrawOp>,
}

impl View for BaseDraw {
    type V = BaseDrawView;

    closed spec fn view(&self) -> BaseDrawView {
        BaseDrawView { borders: self.borders@, pending: self.pending@ }
    }
}

/// The operations that clear a buffer: paint all of it transparent.
pub open spec fn clear_ops() -> Seq<DrawOp> {
    seq![DrawOp::SetSource(Color { r: 0, g: 0, b: 0, a: 0 }), DrawOp::Paint]
}

impl BaseDraw {
    /// A session on `borders` with nothing queued.
    pub fn new(borders: Borders) -> (d: BaseDraw)
        ensures
            d@ == (BaseDrawView { borders: borders@, pending: Seq::empty() }),
    {
        BaseDraw { borders, pending: Vec::new() }
    }

    /// Goes on after the engine ran what was queued and reported `status`:
    /// the session as it is on success, else the error with the border.
    pub fn check_cairo(self, status: DrawStatus) -> (r: Result<BaseDraw, DrawErr>)
        ensures
            match status {
                DrawStatus::Success => r matches Ok(d) && d@ == self@,
                DrawStatus::Error(code) => r matches Err(e) && e.view_parts() == (code, self@.borders),
            },
    {
        match status {
            DrawStatus::Success => Ok(self),
            DrawStatus::Error(code) => Err(DrawErr::Engine(code, self.borders)),
        }
    }

    /// Paints with `color` from now on.
    pub fn set_color_source(&mut self, color: Color)
        ensures
            final(self)@ == (BaseDrawView {
                pending: old(self)@.pending.push(DrawOp::SetSource(color)),
                ..old(self)@
            }),
    {
        self.pending.push(DrawOp::SetSource(color));
    }

    /// Erases the buffer: every pixel becomes transparent black. Leaves
    /// transparent black as the color to paint with.
    pub fn clear(&mut self)
        ensures
            final(self)@ == (BaseDrawView { pending: old(self)@.pending + clear_ops(), ..old(self)@ }),
    {
        self.pending.push(DrawOp::SetSource(Color::transparent()));
        self.pending.push(DrawOp::Paint);
        assert(self@.pending =~= old(self)@.pending + clear_ops());
    }

    /// Adds `rect` to the path.
    pub fn rectangle(&mut self, rect: PaintRect)
        ensures
            final(self)@ == (BaseDrawView {
                pending: old(self)@.pending.push(DrawOp::Rectangle(rect)),
                ..old(self)@
            }),
    {
        self.pending.push(DrawOp::Rectangle(rect));
    }

    /// Fills the path.
    pub fn fill(&mut self)
        ensures
            final(self)@ == (BaseDrawView { pending: old(self)@.pending.push(DrawOp::Fill), ..old(self)@ }),
    {
        self.pending.push(DrawOp::Fill);
    }

    /// Hands the queued operations to the engine, in order, and empties the
    /// queue.
    pub fn take_ops(&mut self) -> (ops: Vec<DrawOp>)
        ensures
            ops@ == old(self)@.pending,
            final(self)@ == (BaseDrawView { pending: Seq::empty(), ..old(self)@ }),
    {
        let mut ops: Vec<DrawOp> = Vec::new();
        let n: usize = self.pending.len();
        let mut i: usize = 0;
        while i < n
            invariant
                n == self.pending.len(),
                i <= n,
                ops@ == self.pending@.subrange(0, i as int),
                self == old(self),
            decreases n - i,
        {
            ops.push(self.pending[i]);
            i = i + 1;
            assert(ops@ =~= self.pending@.subrange(0, i as int));
        }
        assert(ops@ =~= old(self)@.pending);
        self.pending = Vec::new();
        ops
    }

    /// Ends the session: the border, now drawn at `border_g`, which has its
    /// size.
    pub fn finish(self, border_g: Geometry) -> (b: Borders)
        requires
            border_g.size == self@.borders.geometry.size,
        ensures
            b@ == (BordersView { geometry: border_g, ..self@.borders }),
    {
        let mut borders = self.borders;
        borders.set_geometry(border_g);
        borders
    }

    /// The buffer of the border, for the engine to paint into.
    pub fn surface(&mut self) -> (b: &mut [u8])
        ensures
            b@ == old(self)@.borders.buffer,
            final(self)@ == (BaseDrawView {
                borders: BordersView { buffer: final(b)@, ..old(self)@.borders },
                ..old(self)@
            }),
    {
        self.borders.get_surface()
    }

    /// The border being drawn.
    pub fn borders(&self) -> (b: &Borders)
        ensures
            b@ == self@.borders,
    {
        &self.borders
    }
}

} // verus!
