//! The border of one window: its pixel buffer, where it is drawn, and with
//! what color.
use vstd::prelude::*;

use crate::color::Color;
use crate::config::{number_spec, resolve, resolve_number, value_or_zero_spec, Config, ConfigKey, Setting};
use crate::geometry::{outer_fits, outer_geometry, outer_geometry_spec, Geometry, Size};
use crate::stride::{calculate_stride, stride_spec, MAX_STRIDE_WIDTH};

verus! {

/// Pixels that the title strip adds above the top border.
pub const TITLE_OFFSET: u32 = 50;

/// The output that a border is drawn on, as the compositor identifies it.
#[derive(Clone, Copy, Debug, PartialEq, Eq, Structural)]
pub struct Output {
    pub handle: usize,
}

/// Bytes of the ARGB32 buffer for a rectangle of `size`.
pub open spec fn buffer_len_spec(size: Size) -> int {
    stride_spec(size.w) * size.h
}

/// Whether a buffer for a rectangle of `size` can be described on this machine.
pub open spec fn allocatable(size: Size) -> bool {
    size.w <= MAX_STRIDE_WIDTH && buffer_len_spec(size) <= usize::MAX
}

/// `n` zero bytes.
pub open spec fn zeroed(n: int) -> Seq<u8> {
    Seq::new(n as nat, |i: int| 0u8)
}

/// The border thickness in the configuration; zero means no borders.
pub open spec fn thickness_spec(config: Config) -> u32 {
    value_or_zero_spec(config, ConfigKey::BorderSize)
}

/// The rectangle of the border around `content`, or `None` where there is to
/// be no border: the thickness is zero, or the rectangle or its buffer cannot
/// be represented.
pub open spec fn border_geometry_spec(content: Geometry, config: Config) -> Option<Geometry> {
    let t = thickness_spec(config);
    if t == 0 || !outer_fits(content, t, TITLE_OFFSET) {
        None
    } else {
        let o = outer_geometry_spec(content, t, TITLE_OFFSET);
        if allocatable(o.size) {
            Some(o)
        } else {
            None
        }
    }
}

/// What a border holds.
pub struct BordersView {
    pub buffer: Seq<u8>,
    pub geometry: Geometry,
    pub output: Output,
    pub color: Option<Color>,
    pub title: Seq<char>,
}

impl BordersView {
    /// The buffer has the length that the rectangle's size asks for.
    pub open spec fn wf(self) -> bool {
        &&& self.buffer.len() == buffer_len_spec(self.geometry.size)
        &&& allocatable(self.geometry.size)
    }
}

/// The title that a new border shows.
pub open spec fn default_title() -> Seq<char> {
    "Hello World!"@
}

/// The border that `Borders::new` makes for `content` on `output`.
pub open spec fn created_spec(content: Geometry, output: Output, config: Config) -> Option<BordersView> {
    match border_geometry_spec(content, config) {
        None => None,
        Some(o) => Some(
            BordersView {
                buffer: zeroed(buffer_len_spec(o.size)),
                geometry: o,
                output,
                color: None,
                title: default_title(),
            },
        ),
    }
}

/// The border that `Borders::reallocate_buffer` makes of `v` for a new
/// `content`: the buffer is kept where the size stays, and replaced by a
/// zeroed one where it changes.
pub open spec fn reallocated_spec(v: BordersView, content: Geometry, config: Config) -> Option<BordersView> {
    match border_geometry_spec(content, config) {
        None => None,
        Some(o) => Some(
            BordersView {
                buffer: if o.size == v.geometry.size {
                    v.buffer
                } else {
                    zeroed(buffer_len_spec(o.size))
                },
                geometry: o,
                output: v.output,
                color: v.color,
                title: v.title,
            },
        ),
    }
}

/// The border of a window: a zero-initialised ARGB32 buffer of the size of
/// its outer rectangle, the output it belongs to, an optional color of its
/// own, and a title.
#[derive(Clone)]
pub struct Borders {
    buffer: Vec<u8>,
    geometry: Geometry,
    output: Output,
    color: Option<Color>,
    title: String,
}

impl View for Borders {
    type V = BordersView;

    closed spec fn view(&self) -> BordersView {
        BordersView {
            buffer: self.buffer@,
            geometry: self.geometry,
            output: self.output,
            color: self.color,
            title: self.title@,
        }
    }
}

/// Two borders are equal when they are drawn at the same rectangle, whatever
/// their buffers hold.
impl PartialEq for Borders {
    fn eq(&self, other: &Borders) -> (r: bool) {
        self.geometry == other.geometry
    }
}

impl vstd::std_specs::cmp::PartialEqSpecImpl for Borders {
    open spec fn obeys_eq_spec() -> bool {
        true
    }

    open spec fn eq_spec(&self, other: &Borders) -> bool {
        self@.geometry == other@.geometry
    }
}

impl Eq for Borders {
}

/// A zeroed buffer for a rectangle of `size`.
fn allocate(size: Size) -> (buffer: Vec<u8>)
    requires
        allocatable(size),
    ensures
        buffer@ == zeroed(buffer_len_spec(size)),
{
    let stride: u32 = calculate_stride(size.w);
    let len: usize = stride as usize * size.h as usize;
    let buffer: Vec<u8> = vec![0u8; len];
    assert(buffer@ =~= zeroed(buffer_len_spec(size)));
    buffer
}

/// The rectangle of the border around `content` (see `border_geometry_spec`).
fn border_geometry(content: Geometry, config: &Config) -> (r: Option<Geometry>)
    ensures
        r == border_geometry_spec(content, *config),
{
    let thickness = Borders::thickness(config);
    if thickness == 0 {
        return None;
    }
    match outer_geometry(content, thickness, TITLE_OFFSET) {
        None => None,
        Some(o) => {
            if o.size.w > MAX_STRIDE_WIDTH {
                return None;
            }
            let stride: u32 = calculate_stride(o.size.w);
            assert(stride as u64 * o.size.h as u64 <= u64::MAX) by (nonlinear_arith)
                requires
                    stride <= 4 * MAX_STRIDE_WIDTH,
                    o.size.h <= u32::MAX,
            ;
            let len: u64 = stride as u64 * o.size.h as u64;
            if len > usize::MAX as u64 {
                None
            } else {
                Some(o)
            }
        },
    }
}

impl Borders {
    /// Its buffer always matches its rectangle.
    pub open spec fn wf(&self) -> bool {
        self@.wf()
    }

    /// A border for a window whose content takes up `content` on `output`, or
    /// `None` where there is to be none (see `border_geometry_spec`).
    pub fn new(content: Geometry, output: Output, config: &Config) -> (r: Option<Borders>)
        ensures
            r matches Some(b) ==> b.wf(),
            match r {
                Some(b) => created_spec(content, output, *config) == Some(b@),
                None => created_spec(content, output, *config).is_none(),
            },
    {
        match border_geometry(content, config) {
            None => None,
            Some(geometry) => Some(
                Borders {
                    buffer: allocate(geometry.size),
                    geometry,
                    output,
                    color: None,
                    title: "Hello World!".to_owned(),
                },
            ),
        }
    }

    /// The border for the window's new `content`: `None` where there is to be
    /// none any more; otherwise the rectangle is updated, and the buffer kept
    /// where its size stays and replaced by a zeroed one where it changes.
    /// Replacing allocates: call this when a window moves or resizes, not on
    /// every frame.
    pub fn reallocate_buffer(self, content: Geometry, config: &Config) -> (r: Option<Borders>)
        requires
            self.wf(),
        ensures
            r matches Some(b) ==> b.wf(),
            match r {
                Some(b) => reallocated_spec(self@, content, *config) == Some(b@),
                None => reallocated_spec(self@, content, *config).is_none(),
            },
    {
        let Borders { buffer, geometry: current, output, color, title } = self;
        match border_geometry(content, config) {
            None => None,
            Some(geometry) => {
                let buffer = if geometry.size.w == current.size.w && geometry.size.h == current.size.h {
                    buffer
                } else {
                    crate::drop_data(buffer);
                    allocate(geometry.size)
                };
                Some(Borders { buffer, geometry, output, color, title })
            },
        }
    }

    /// The title shown in the title strip.
    pub fn title(&self) -> (s: &str)
        ensures
            s@ == self@.title,
    {
        self.title.as_str()
    }

    /// Pixels that the title strip adds above the top border.
    pub fn title_offset() -> (r: u32)
        ensures
            r == TITLE_OFFSET,
    {
        TITLE_OFFSET
    }

    /// The border thickness in `config`: zero where it is unset, not a
    /// number, or not above zero.
    pub fn thickness(config: &Config) -> (r: u32)
        ensures
            r == thickness_spec(*config),
    {
        match resolve(config.get(ConfigKey::BorderSize)) {
            Some(v) => v,
            None => 0,
        }
    }

    /// The color of borders without one of their own; black where none is
    /// configured.
    pub fn default_color(config: &Config) -> (c: Color)
        ensures
            c == Color::from_packed_spec(value_or_zero_spec(*config, ConfigKey::BorderColor)),
    {
        let v: u32 = match resolve(config.get(ConfigKey::BorderColor)) {
            Some(v) => v,
            None => 0,
        };
        Color::from_packed(v)
    }

    /// The color of the focused window's border, where a number is
    /// configured for it; `None` where the key is unset or not a number.
    pub fn active_color(config: &Config) -> (c: Option<Color>)
        ensures
            c == (match number_spec(config.get_spec(ConfigKey::ActiveBorderColor)) {
                Some(v) => Some(Color::from_packed_spec(v)),
                None => None,
            }),
    {
        match resolve_number(config.get(ConfigKey::ActiveBorderColor)) {
            Some(v) => Some(Color::from_packed(v)),
            None => None,
        }
    }

    /// The color of this border: its own, else the default one.
    pub fn color(&self, config: &Config) -> (c: Color)
        ensures
            c == (match self@.color {
                Some(own) => own,
                None => Color::from_packed_spec(value_or_zero_spec(*config, ConfigKey::BorderColor)),
            }),
    {
        match self.color {
            Some(own) => own,
            None => Borders::default_color(config),
        }
    }

    /// Sets or clears the color of this border; it is drawn so on the next
    /// pass.
    pub fn set_color(&mut self, color: Option<Color>)
        ensures
            final(self)@ == (BordersView { color, ..old(self)@ }),
    {
        self.color = color;
    }

    /// The output this border is drawn on.
    pub fn get_output(&self) -> (o: Output)
        ensures
            o == self@.output,
    {
        self.output
    }

    /// The rectangle this border is drawn at.
    pub fn get_geometry(&self) -> (g: Geometry)
        ensures
            g == self@.geometry,
    {
        self.geometry
    }

    /// Moves the border to `geometry`, of the size it has.
    pub fn set_geometry(&mut self, geometry: Geometry)
        requires
            geometry.size == old(self)@.geometry.size,
        ensures
            final(self)@ == (BordersView { geometry, ..old(self)@ }),
    {
        self.geometry = geometry;
    }

    /// The buffer, for the engine to paint into; its length stays.
    pub fn get_surface(&mut self) -> (b: &mut [u8])
        ensures
            b@ == old(self)@.buffer,
            final(self)@ == (BordersView { buffer: final(b)@, ..old(self)@ }),
    {
        self.buffer.as_mut_slice()
    }

    /// The bytes of the buffer.
    pub fn buffer(&self) -> (b: &[u8])
        ensures
            b@ == self@.buffer,
    {
        self.buffer.as_slice()
    }
}

/// A buffer that the compositor renders: made for a window's content
/// rectangle on an output, moved, and reallocated when the window resizes.
pub trait Renderable: Sized {
    /// The rectangle the buffer is drawn at.
    spec fn geometry_spec(&self) -> Geometry;

    /// The output the buffer is drawn on.
    spec fn output_spec(&self) -> Output;

    /// The bytes of the buffer.
    spec fn buffer_spec(&self) -> Seq<u8>;

    /// The buffer matches the rectangle.
    spec fn valid(&self) -> bool;

    /// A buffer for a window whose content takes up `content` on `output`,
    /// or `None` where there is to be none.
    fn new(content: Geometry, output: Output, config: &Config) -> (r: Option<Self>)
        ensures
            match r {
                Some(b) => {
                    &&& b.valid()
                    &&& b.output_spec() == output
                    &&& border_geometry_spec(content, *config) == Some(b.geometry_spec())
                },
                None => border_geometry_spec(content, *config).is_none(),
            },
    ;

    /// The buffer, for the engine to paint into.
    fn get_surface(&mut self) -> (b: &mut [u8])
        ensures
            b@ == old(self).buffer_spec(),
            final(self).buffer_spec() == final(b)@,
            final(self).geometry_spec() == old(self).geometry_spec(),
            final(self).output_spec() == old(self).output_spec(),
    ;

    /// The rectangle the buffer is drawn at.
    fn get_geometry(&self) -> (g: Geometry)
        ensures
            g == self.geometry_spec(),
    ;

    /// Moves the buffer to `geometry`, of the size it has.
    fn set_geometry(&mut self, geometry: Geometry)
        requires
            old(self).valid(),
            geometry.size == old(self).geometry_spec().size,
        ensures
            final(self).valid(),
            final(self).geometry_spec() == geometry,
            final(self).buffer_spec() == old(self).buffer_spec(),
            final(self).output_spec() == old(self).output_spec(),
    ;

    /// The output the buffer is drawn on.
    fn get_output(&self) -> (o: Output)
        ensures
            o == self.output_spec(),
    ;

    /// The buffer for the window's new `content`, or `None` where there is to
    /// be none any more.
    fn reallocate_buffer(self, content: Geometry, config: &Config) -> (r: Option<Self>)
        requires
            self.valid(),
        ensures
            match r {
                Some(b) => {
                    &&& b.valid()
                    &&& b.output_spec() == self.output_spec()
                    &&& border_geometry_spec(content, *config) == Some(b.geometry_spec())
                    &&& b.geometry_spec().size == self.geometry_spec().size ==> b.buffer_spec()
                        == self.buffer_spec()
                },
                None => border_geometry_spec(content, *config).is_none(),
            },
    ;
}

impl Renderable for Borders {
    open spec fn geometry_spec(&self) -> Geometry {
        self@.geometry
    }

    open spec fn output_spec(&self) -> Output {
        self@.output
    }

    open spec fn buffer_spec(&self) -> Seq<u8> {
        self@.buffer
    }

    open spec fn valid(&self) -> bool {
        self.wf()
    }

    fn new(content: Geometry, output: Output, config: &Config) -> (r: Option<Borders>) {
        Borders::new(content, output, config)
    }

    fn get_surface(&mut self) -> (b: &mut [u8]) {
        Borders::get_surface(self)
    }

    fn get_geometry(&self) -> (g: Geometry) {
        Borders::get_geometry(self)
    }

    fn set_geometry(&mut self, geometry: Geometry) {
        Borders::set_geometry(self, geometry)
    }

    fn get_output(&self) -> (o: Output) {
        Borders::get_output(self)
    }

    fn reallocate_buffer(self, content: Geometry, config: &Config) -> (r: Option<Borders>) {
        Borders::reallocate_buffer(self, content, config)
    }
}

/// With a thickness of zero no border is made, whatever the content
/// rectangle and the output.
pub proof fn lemma_no_borders_without_thickness(content: Geometry, output: Output, config: Config)
    requires
        thickness_spec(config) == 0,
    ensures
        created_spec(content, output, config).is_none(),
{
}

/// With a thickness of zero a border that is reallocated is removed, whatever
/// it held and whatever the new content rectangle.
pub proof fn lemma_reallocate_without_thickness(v: BordersView, content: Geometry, config: Config)
    requires
        thickness_spec(config) == 0,
    ensures
        reallocated_spec(v, content, config).is_none(),
{
}

/// Reallocating twice for the same content rectangle gives a buffer of the
/// same size both times, and the second time keeps the buffer as it was: it
/// allocates nothing and changes nothing.
pub proof fn lemma_reallocate_twice(v: BordersView, content: Geometry, config: Config)
    requires
        v.wf(),
    ensures
        match reallocated_spec(v, content, config) {
            Some(first) => {
                &&& first.wf()
                &&& reallocated_spec(first, content, config) == Some(first)
            },
            None => true,
        },
{
    match reallocated_spec(v, content, config) {
        Some(first) => {
            assert(first.buffer.len() == buffer_len_spec(first.geometry.size));
        },
        None => {},
    }
}

/// Where no border color is configured, the default color is opaque black;
/// where no active border color is configured, or what is stored is not a
/// number, there is none, which is not the same as a configured zero.
pub proof fn lemma_color_fallback(config: Config)
    ensures
        config.get_spec(ConfigKey::BorderColor) == Setting::Unset ==> Color::from_packed_spec(
            value_or_zero_spec(config, ConfigKey::BorderColor),
        ) == (Color { r: 0, g: 0, b: 0, a: 0xff }),
        config.get_spec(ConfigKey::ActiveBorderColor) == Setting::Unset ==> number_spec(
            config.get_spec(ConfigKey::ActiveBorderColor),
        ).is_none(),
        config.get_spec(ConfigKey::ActiveBorderColor) == Setting::NonNumeric ==> number_spec(
            config.get_spec(ConfigKey::ActiveBorderColor),
        ).is_none(),
        config.get_spec(ConfigKey::ActiveBorderColor) == Setting::Number(0) ==> number_spec(
            config.get_spec(ConfigKey::ActiveBorderColor),
        ) == Some(0u32),
{
}

} // verus!
