use vstd::prelude::*;

use crate::color::{colorref, convert_color, Color};
use crate::input::FrameSize;

verus! {

/// A point of the GUI library's command stream.
#[derive(Clone, Copy, Debug, PartialEq, Eq, Structural)]
pub struct Vec2i {
    pub x: i16,
    pub y: i16,
}

/// A point as GDI takes it.
#[derive(Clone, Copy, Debug, PartialEq, Eq, Structural)]
pub struct Point {
    pub x: i32,
    pub y: i32,
}

/// One drawing command of the GUI library, with the values that drawing
/// reads. Arc angles are kept as the bit patterns of their `f32` values and
/// handed on untouched; `font` and `image` are the native handles (`HFONT`,
/// `HBITMAP`) that the font and image were registered with.
#[derive(Clone, Debug, PartialEq, Eq)]
pub enum DrawCommand {
    Scissor { x: i16, y: i16, w: u16, h: u16 },
    Line { begin: Vec2i, end: Vec2i, thickness: u16, color: Color },
    Curve { begin: Vec2i, ctrl0: Vec2i, ctrl1: Vec2i, end: Vec2i, thickness: u16, color: Color },
    Rect { x: i16, y: i16, w: u16, h: u16, rounding: u16, thickness: u16, color: Color },
    RectFilled { x: i16, y: i16, w: u16, h: u16, rounding: u16, color: Color },
    Circle { x: i16, y: i16, w: u16, h: u16, thickness: u16, color: Color },
    CircleFilled { x: i16, y: i16, w: u16, h: u16, color: Color },
    Arc { cx: i16, cy: i16, r: u16, start: u32, sweep: u32, thickness: u16, color: Color },
    ArcFilled { cx: i16, cy: i16, r: u16, start: u32, sweep: u32, color: Color },
    Triangle { a: Vec2i, b: Vec2i, c: Vec2i, thickness: u16, color: Color },
    TriangleFilled { a: Vec2i, b: Vec2i, c: Vec2i, color: Color },
    Polygon { points: Vec<Vec2i>, thickness: u16, color: Color },
    PolygonFilled { points: Vec<Vec2i>, color: Color },
    Polyline { points: Vec<Vec2i>, thickness: u16, color: Color },
    Text {
        x: i16,
        y: i16,
        w: u16,
        h: u16,
        text: Vec<u8>,
        font: usize,
        background: Color,
        foreground: Color,
    },
    Image { x: i16, y: i16, w: u16, h: u16, image: usize, color: Color },
    /// A command this backend does not draw (no-op, multi-colour rectangle,
    /// custom callback).
    Other,
}

/// One call on the memory device context, with its arguments. `P` holds a
/// list of points and `T` a text: `Vec`s in a plan, `Seq`s in its view.
#[derive(Clone, Debug, PartialEq, Eq)]
pub enum GdiCall<P, T> {
    /// Select the stock `DC_PEN`.
    SelectStockPen,
    /// Select the stock `DC_BRUSH`.
    SelectStockBrush,
    /// `SetBkColor`.
    SetBkColor { color: u32 },
    /// `ExtTextOutW` with `ETO_OPAQUE`, this rectangle and no text: fills
    /// the rectangle with the background colour.
    FillOpaque { left: i32, top: i32, right: i32, bottom: i32 },
    /// `SelectClipRgn` with no region.
    ResetClip,
    /// `IntersectClipRect`.
    IntersectClip { left: i32, top: i32, right: i32, bottom: i32 },
    /// `SetDCPenColor`.
    SetPenColor { color: u32 },
    /// Create a solid pen of this width and colour and select it.
    CreatePen { width: i32, color: u32 },
    /// Select the stock `DC_PEN` again and delete the pen created before.
    RestorePen,
    /// `SetDCBrushColor`.
    SetBrushColor { color: u32 },
    /// `MoveToEx`.
    MoveTo { x: i32, y: i32 },
    /// `LineTo`.
    LineTo { x: i32, y: i32 },
    /// `Rectangle`.
    Rectangle { left: i32, top: i32, right: i32, bottom: i32 },
    /// `RoundRect` with equal corner width and height.
    RoundRect { left: i32, top: i32, right: i32, bottom: i32, corner: i32 },
    /// `Ellipse`.
    Ellipse { left: i32, top: i32, right: i32, bottom: i32 },
    /// `Polygon`.
    Polygon { points: P },
    /// `Polyline`.
    Polyline { points: P },
    /// `PolyBezier`.
    PolyBezier { points: P },
    /// `AngleArc`; `start` and `sweep` are `f32` bit patterns.
    AngleArc { x: i32, y: i32, radius: u32, start: u32, sweep: u32 },
    /// `SetTextColor`.
    SetTextColor { color: u32 },
    /// Select this font.
    SelectFont { font: usize },
    /// `ExtTextOutW` with `ETO_OPAQUE` of this UTF-8 text, converted to UTF-16.
    TextOut { x: i32, y: i32, text: T },
    /// Alpha-blend the whole of this bitmap into this rectangle.
    DrawImage { x: i32, y: i32, w: i32, h: i32, image: usize },
    /// `BitBlt` this area of the memory context to the window.
    Blit { width: i32, height: i32 },
}

/// A call as a plan holds it.
pub type Call = GdiCall<Vec<Point>, Vec<u8>>;

/// What a call is, for contracts.
pub type CallView = GdiCall<Seq<Point>, Seq<u8>>;

impl View for GdiCall<Vec<Point>, Vec<u8>> {
    type V = CallView;

    open spec fn view(&self) -> CallView {
        match *self {
            GdiCall::SelectStockPen => GdiCall::SelectStockPen,
            GdiCall::SelectStockBrush => GdiCall::SelectStockBrush,
            GdiCall::SetBkColor { color } => GdiCall::SetBkColor { color },
            GdiCall::FillOpaque { left, top, right, bottom } => GdiCall::FillOpaque {
                left,
                top,
                right,
                bottom,
            },
            GdiCall::ResetClip => GdiCall::ResetClip,
            GdiCall::IntersectClip { left, top, right, bottom } => GdiCall::IntersectClip {
                left,
                top,
                right,
                bottom,
            },
            GdiCall::SetPenColor { color } => GdiCall::SetPenColor { color },
            GdiCall::CreatePen { width, color } => GdiCall::CreatePen { width, color },
            GdiCall::RestorePen => GdiCall::RestorePen,
            GdiCall::SetBrushColor { color } => GdiCall::SetBrushColor { color },
            GdiCall::MoveTo { x, y } => GdiCall::MoveTo { x, y },
            GdiCall::LineTo { x, y } => GdiCall::LineTo { x, y },
            GdiCall::Rectangle { left, top, right, bottom } => GdiCall::Rectangle {
                left,
                top,
                right,
                bottom,
            },
            GdiCall::RoundRect { left, top, right, bottom, corner } => GdiCall::RoundRect {
                left,
                top,
                right,
                bottom,
                corner,
            },
            GdiCall::Ellipse { left, top, right, bottom } => GdiCall::Ellipse {
                left,
                top,
                right,
                bottom,
            },
            GdiCall::Polygon { points } => GdiCall::Polygon { points: points@ },
            GdiCall::Polyline { points } => GdiCall::Polyline { points: points@ },
            GdiCall::PolyBezier { points } => GdiCall::PolyBezier { points: points@ },
            GdiCall::AngleArc { x, y, radius, start, sweep } => GdiCall::AngleArc {
                x,
                y,
                radius,
                start,
                sweep,
            },
            GdiCall::SetTextColor { color } => GdiCall::SetTextColor { color },
            GdiCall::SelectFont { font } => GdiCall::SelectFont { font },
            GdiCall::TextOut { x, y, text } => GdiCall::TextOut { x, y, text: text@ },
            GdiCall::DrawImage { x, y, w, h, image } => GdiCall::DrawImage { x, y, w, h, image },
            GdiCall::Blit { width, height } => GdiCall::Blit { width, height },
        }
    }
}

/// The views of a sequence of calls.
pub open spec fn views(s: Seq<Call>) -> Seq<CallView> {
    s.map_values(|c: Call| c@)
}

/// A command point as a GDI point.
pub open spec fn point(v: Vec2i) -> Point {
    Point { x: v.x as i32, y: v.y as i32 }
}

/// The calls that pick the pen for an outline: the DC pen recoloured for a
/// width of one, a new pen otherwise.
pub open spec fn pen_begin(width: u16, color: u32) -> Seq<CallView> {
    if width == 1 {
        seq![GdiCall::SetPenColor { color }]
    } else {
        seq![GdiCall::CreatePen { width: width as i32, color }]
    }
}

/// The calls that drop a pen that `pen_begin` created.
pub open spec fn pen_end(width: u16) -> Seq<CallView> {
    if width == 1 {
        seq![]
    } else {
        seq![GdiCall::RestorePen]
    }
}

/// An outline drawn with a pen of this width and colour.
pub open spec fn stroked(width: u16, color: Color, body: Seq<CallView>) -> Seq<CallView> {
    pen_begin(width, colorref(color)) + body + pen_end(width)
}

/// A path through `pts`: a move to the first point and a line to each next
/// one, closed by a line back to the first when `closed`; nothing for no
/// points.
pub open spec fn path(pts: Seq<Vec2i>, closed: bool) -> Seq<CallView> {
    if pts.len() == 0 {
        seq![]
    } else {
        let first = point(pts[0]);
        seq![GdiCall::MoveTo { x: first.x, y: first.y }] + Seq::new(
            (pts.len() - 1) as nat,
            |i: int| GdiCall::LineTo { x: point(pts[i + 1]).x, y: point(pts[i + 1]).y },
        ) + if closed {
            seq![GdiCall::LineTo { x: first.x, y: first.y }]
        } else {
            seq![]
        }
    }
}

/// The calls that draw one command.
pub open spec fn command_calls(cmd: DrawCommand) -> Seq<CallView> {
    match cmd {
        DrawCommand::Scissor { x, y, w, h } => seq![
            GdiCall::ResetClip,
            GdiCall::IntersectClip {
                left: x as i32,
                top: y as i32,
                right: (x + w + 1) as i32,
                bottom: (y + h + 1) as i32,
            },
        ],
        DrawCommand::Line { begin, end, thickness, color } => stroked(
            thickness,
            color,
            seq![
                GdiCall::MoveTo { x: point(begin).x, y: point(begin).y },
                GdiCall::LineTo { x: point(end).x, y: point(end).y },
            ],
        ),
        DrawCommand::Curve { begin, ctrl0, ctrl1, end, thickness, color } => stroked(
            thickness,
            color,
            seq![
                GdiCall::PolyBezier {
                    points: seq![point(begin), point(ctrl0), point(ctrl1), point(end)],
                },
            ],
        ),
        DrawCommand::Rect { x, y, w, h, rounding, thickness, color } => stroked(
            thickness,
            color,
            if rounding == 0 {
                seq![
                    GdiCall::Rectangle {
                        left: x as i32,
                        top: y as i32,
                        right: (x + w) as i32,
                        bottom: (y + h) as i32,
                    },
                ]
            } else {
                seq![
                    GdiCall::RoundRect {
                        left: x as i32,
                        top: y as i32,
                        right: (x + w) as i32,
                        bottom: (y + h) as i32,
                        corner: rounding as i32,
                    },
                ]
            },
        ),
        DrawCommand::RectFilled { x, y, w, h, rounding, color } => {
            let c = colorref(color);
            if rounding == 0 {
                seq![
                    GdiCall::SetBkColor { color: c },
                    GdiCall::FillOpaque {
                        left: x as i32,
                        top: y as i32,
                        right: (x + w) as i32,
                        bottom: (y + h) as i32,
                    },
                    GdiCall::SetBrushColor { color: c },
                ]
            } else {
                seq![
                    GdiCall::SetPenColor { color: c },
                    GdiCall::SetBrushColor { color: c },
                    GdiCall::RoundRect {
                        left: x as i32,
                        top: y as i32,
                        right: (x + w) as i32,
                        bottom: (y + h) as i32,
                        corner: rounding as i32,
                    },
                    GdiCall::SetBrushColor { color: c },
                ]
            }
        },
        DrawCommand::Circle { x, y, w, h, thickness, color } => stroked(
            thickness,
            color,
            seq![
                GdiCall::Ellipse {
                    left: x as i32,
                    top: y as i32,
                    right: (x + w) as i32,
                    bottom: (y + h) as i32,
                },
            ],
        ),
        DrawCommand::CircleFilled { x, y, w, h, color } => seq![
            GdiCall::SetBrushColor { color: colorref(color) },
            GdiCall::SetPenColor { color: colorref(color) },
            GdiCall::Ellipse {
                left: x as i32,
                top: y as i32,
                right: (x + w) as i32,
                bottom: (y + h) as i32,
            },
        ],
        DrawCommand::Arc { cx, cy, r, start, sweep, thickness, color } => stroked(
            thickness,
            color,
            seq![
                GdiCall::AngleArc {
                    x: cx as i32,
                    y: cy as i32,
                    radius: r as u32,
                    start,
                    sweep,
                },
            ],
        ),
        DrawCommand::ArcFilled { cx, cy, r, start, sweep, color } => seq![
            GdiCall::SetBrushColor { color: colorref(color) },
            GdiCall::SetPenColor { color: colorref(color) },
            GdiCall::AngleArc { x: cx as i32, y: cy as i32, radius: r as u32, start, sweep },
        ],
        DrawCommand::Triangle { a, b, c, thickness, color } => stroked(
            thickness,
            color,
            seq![GdiCall::Polyline { points: seq![point(a), point(b), point(c), point(a)] }],
        ),
        DrawCommand::TriangleFilled { a, b, c, color } => seq![
            GdiCall::SetPenColor { color: colorref(color) },
            GdiCall::SetBrushColor { color: colorref(color) },
            GdiCall::Polygon { points: seq![point(a), point(b), point(c)] },
        ],
        DrawCommand::Polygon { points, thickness, color } => stroked(
            thickness,
            color,
            path(points@, true),
        ),
        DrawCommand::PolygonFilled { points, color } => if points@.len() == 0 {
            seq![]
        } else {
            seq![
                GdiCall::SetBrushColor { color: colorref(color) },
                GdiCall::SetPenColor { color: colorref(color) },
                GdiCall::Polygon { points: points@.map_values(|v: Vec2i| point(v)) },
            ]
        },
        DrawCommand::Polyline { points, thickness, color } => stroked(
            thickness,
            color,
            path(points@, false),
        ),
        DrawCommand::Text { x, y, w, h, text, font, background, foreground } => seq![
            GdiCall::SetBkColor { color: colorref(background) },
            GdiCall::SetTextColor { color: colorref(foreground) },
            GdiCall::SelectFont { font },
            GdiCall::TextOut { x: x as i32, y: y as i32, text: text@ },
            GdiCall::SetBrushColor { color: colorref(background) },
        ],
        DrawCommand::Image { x, y, w, h, image, color } => seq![
            GdiCall::DrawImage { x: x as i32, y: y as i32, w: w as i32, h: h as i32, image },
        ],
        DrawCommand::Other => seq![],
    }
}

/// Appends one call to a plan.
fn emit(out: &mut Vec<Call>, c: Call)
    ensures
        views(final(out)@) == views(old(out)@).push(c@),
{
    let ghost before = out@;
    out.push(c);
    proof {
        assert(views(out@) =~= views(before).push(c@));
    }
}

/// Picks the pen for an outline of this width and colour.
fn begin_pen(out: &mut Vec<Call>, width: u16, color: u32)
    ensures
        views(final(out)@) == views(old(out)@) + pen_begin(width, color),
{
    let ghost before = views(out@);
    if width == 1 {
        emit(out, GdiCall::SetPenColor { color });
    } else {
        emit(out, GdiCall::CreatePen { width: width as i32, color });
    }
    proof {
        assert(views(out@) =~= before + pen_begin(width, color));
    }
}

/// Drops the pen that `begin_pen` created, if it created one.
fn end_pen(out: &mut Vec<Call>, width: u16)
    ensures
        views(final(out)@) == views(old(out)@) + pen_end(width),
{
    let ghost before = views(out@);
    if width != 1 {
        emit(out, GdiCall::RestorePen);
    }
    proof {
        assert(views(out@) =~= before + pen_end(width));
    }
}

/// Confines drawing to a rectangle, one pixel wider and higher than given.
pub fn scissor(out: &mut Vec<Call>, x: i16, y: i16, w: u16, h: u16)
    ensures
        views(final(out)@) == views(old(out)@) + command_calls(DrawCommand::Scissor { x, y, w, h }),
{
    let ghost before = views(out@);
    emit(out, GdiCall::ResetClip);
    let left = x as i32;
    let top = y as i32;
    emit(out, GdiCall::IntersectClip { left, top, right: left + w as i32 + 1, bottom: top + h as i32 + 1 });
    proof {
        assert(views(out@) =~= before + command_calls(DrawCommand::Scissor { x, y, w, h }));
    }
}

/// Draws a line segment.
pub fn stroke_line(out: &mut Vec<Call>, begin: Vec2i, end: Vec2i, thickness: u16, color: Color)
    ensures
        views(final(out)@) == views(old(out)@) + command_calls(
            DrawCommand::Line { begin, end, thickness, color },
        ),
{
    let ghost before = views(out@);
    let c = convert_color(color);
    begin_pen(out, thickness, c);
    emit(out, GdiCall::MoveTo { x: begin.x as i32, y: begin.y as i32 });
    emit(out, GdiCall::LineTo { x: end.x as i32, y: end.y as i32 });
    end_pen(out, thickness);
    proof {
        assert(views(out@) =~= before + command_calls(
            DrawCommand::Line { begin, end, thickness, color },
        ));
    }
}

/// Draws a cubic Bezier curve.
pub fn stroke_curve(
    out: &mut Vec<Call>,
    begin: Vec2i,
    ctrl0: Vec2i,
    ctrl1: Vec2i,
    end: Vec2i,
    thickness: u16,
    color: Color,
)
    ensures
        views(final(out)@) == views(old(out)@) + command_calls(
            DrawCommand::Curve { begin, ctrl0, ctrl1, end, thickness, color },
        ),
{
    let ghost before = views(out@);
    let c = convert_color(color);
    let points = vec![
        Point { x: begin.x as i32, y: begin.y as i32 },
        Point { x: ctrl0.x as i32, y: ctrl0.y as i32 },
        Point { x: ctrl1.x as i32, y: ctrl1.y as i32 },
        Point { x: end.x as i32, y: end.y as i32 },
    ];
    begin_pen(out, thickness, c);
    emit(out, GdiCall::PolyBezier { points });
    end_pen(out, thickness);
    proof {
        assert(views(out@) =~= before + command_calls(
            DrawCommand::Curve { begin, ctrl0, ctrl1, end, thickness, color },
        ));
    }
}

/// Outlines a rectangle, with rounded corners when `rounding` is not zero.
pub fn stroke_rect(
    out: &mut Vec<Call>,
    x: i16,
    y: i16,
    w: u16,
    h: u16,
    rounding: u16,
    thickness: u16,
    color: Color,
)
    ensures
        views(final(out)@) == views(old(out)@) + command_calls(
            DrawCommand::Rect { x, y, w, h, rounding, thickness, color },
        ),
{
    let ghost before = views(out@);
    let c = convert_color(color);
    let left = x as i32;
    let top = y as i32;
    let right = left + w as i32;
    let bottom = top + h as i32;
    begin_pen(out, thickness, c);
    if rounding == 0 {
        emit(out, GdiCall::Rectangle { left, top, right, bottom });
    } else {
        emit(out, GdiCall::RoundRect { left, top, right, bottom, corner: rounding as i32 });
    }
    end_pen(out, thickness);
    proof {
        assert(views(out@) =~= before + command_calls(
            DrawCommand::Rect { x, y, w, h, rounding, thickness, color },
        ));
    }
}

/// Fills a rectangle, with rounded corners when `rounding` is not zero.
pub fn fill_rect(out: &mut Vec<Call>, x: i16, y: i16, w: u16, h: u16, rounding: u16, color: Color)
    ensures
        views(final(out)@) == views(old(out)@) + command_calls(
            DrawCommand::RectFilled { x, y, w, h, rounding, color },
        ),
{
    let ghost before = views(out@);
    let c = convert_color(color);
    let left = x as i32;
    let top = y as i32;
    let right = left + w as i32;
    let bottom = top + h as i32;
    if rounding == 0 {
        emit(out, GdiCall::SetBkColor { color: c });
        emit(out, GdiCall::FillOpaque { left, top, right, bottom });
    } else {
        emit(out, GdiCall::SetPenColor { color: c });
        emit(out, GdiCall::SetBrushColor { color: c });
        emit(out, GdiCall::RoundRect { left, top, right, bottom, corner: rounding as i32 });
    }
    emit(out, GdiCall::SetBrushColor { color: c });
    proof {
        assert(views(out@) =~= before + command_calls(
            DrawCommand::RectFilled { x, y, w, h, rounding, color },
        ));
    }
}

/// Outlines the ellipse inscribed in a rectangle.
pub fn stroke_circle(
    out: &mut Vec<Call>,
    x: i16,
    y: i16,
    w: u16,
    h: u16,
    thickness: u16,
    color: Color,
)
    ensures
        views(final(out)@) == views(old(out)@) + command_calls(
            DrawCommand::Circle { x, y, w, h, thickness, color },
        ),
{
    let ghost before = views(out@);
    let c = convert_color(color);
    let left = x as i32;
    let top = y as i32;
    begin_pen(out, thickness, c);
    emit(out, GdiCall::Ellipse { left, top, right: left + w as i32, bottom: top + h as i32 });
    end_pen(out, thickness);
    proof {
        assert(views(out@) =~= before + command_calls(
            DrawCommand::Circle { x, y, w, h, thickness, color },
        ));
    }
}

/// Fills the ellipse inscribed in a rectangle.
pub fn fill_circle(out: &mut Vec<Call>, x: i16, y: i16, w: u16, h: u16, color: Color)
    ensures
        views(final(out)@) == views(old(out)@) + command_calls(
            DrawCommand::CircleFilled { x, y, w, h, color },
        ),
{
    let ghost before = views(out@);
    let c = convert_color(color);
    let left = x as i32;
    let top = y as i32;
    emit(out, GdiCall::SetBrushColor { color: c });
    emit(out, GdiCall::SetPenColor { color: c });
    emit(out, GdiCall::Ellipse { left, top, right: left + w as i32, bottom: top + h as i32 });
    proof {
        assert(views(out@) =~= before + command_calls(
            DrawCommand::CircleFilled { x, y, w, h, color },
        ));
    }
}

/// Outlines an arc around a centre.
pub fn stroke_arc(
    out: &mut Vec<Call>,
    cx: i16,
    cy: i16,
    r: u16,
    start: u32,
    sweep: u32,
    thickness: u16,
    color: Color,
)
    ensures
        views(final(out)@) == views(old(out)@) + command_calls(
            DrawCommand::Arc { cx, cy, r, start, sweep, thickness, color },
        ),
{
    let ghost before = views(out@);
    let c = convert_color(color);
    begin_pen(out, thickness, c);
    emit(out, GdiCall::AngleArc { x: cx as i32, y: cy as i32, radius: r as u32, start, sweep });
    end_pen(out, thickness);
    proof {
        assert(views(out@) =~= before + command_calls(
            DrawCommand::Arc { cx, cy, r, start, sweep, thickness, color },
        ));
    }
}

/// Draws an arc around a centre with the fill colour set.
pub fn fill_arc(
    out: &mut Vec<Call>,
    cx: i16,
    cy: i16,
    r: u16,
    start: u32,
    sweep: u32,
    color: Color,
)
    ensures
        views(final(out)@) == views(old(out)@) + command_calls(
            DrawCommand::ArcFilled { cx, cy, r, start, sweep, color },
        ),
{
    let ghost before = views(out@);
    let c = convert_color(color);
    emit(out, GdiCall::SetBrushColor { color: c });
    emit(out, GdiCall::SetPenColor { color: c });
    emit(out, GdiCall::AngleArc { x: cx as i32, y: cy as i32, radius: r as u32, start, sweep });
    proof {
        assert(views(out@) =~= before + command_calls(
            DrawCommand::ArcFilled { cx, cy, r, start, sweep, color },
        ));
    }
}

/// Outlines a triangle.
pub fn stroke_triangle(
    out: &mut Vec<Call>,
    a: Vec2i,
    b: Vec2i,
    c: Vec2i,
    thickness: u16,
    color: Color,
)
    ensures
        views(final(out)@) == views(old(out)@) + command_calls(
            DrawCommand::Triangle { a, b, c, thickness, color },
        ),
{
    let ghost before = views(out@);
    let col = convert_color(color);
    let pa = Point { x: a.x as i32, y: a.y as i32 };
    let points = vec![pa, Point { x: b.x as i32, y: b.y as i32 }, Point { x: c.x as i32, y: c.y as i32 }, pa];
    begin_pen(out, thickness, col);
    emit(out, GdiCall::Polyline { points });
    end_pen(out, thickness);
    proof {
        assert(views(out@) =~= before + command_calls(
            DrawCommand::Triangle { a, b, c, thickness, color },
        ));
    }
}

/// Fills a triangle.
pub fn fill_triangle(out: &mut Vec<Call>, a: Vec2i, b: Vec2i, c: Vec2i, color: Color)
    ensures
        views(final(out)@) == views(old(out)@) + command_calls(
            DrawCommand::TriangleFilled { a, b, c, color },
        ),
{
    let ghost before = views(out@);
    let col = convert_color(color);
    let points = vec![
        Point { x: a.x as i32, y: a.y as i32 },
        Point { x: b.x as i32, y: b.y as i32 },
        Point { x: c.x as i32, y: c.y as i32 },
    ];
    emit(out, GdiCall::SetPenColor { color: col });
    emit(out, GdiCall::SetBrushColor { color: col });
    emit(out, GdiCall::Polygon { points });
    proof {
        assert(views(out@) =~= before + command_calls(
            DrawCommand::TriangleFilled { a, b, c, color },
        ));
    }
}

/// Draws an image scaled into a rectangle.
pub fn draw_image(out: &mut Vec<Call>, x: i16, y: i16, w: u16, h: u16, image: usize, color: Color)
    ensures
        views(final(out)@) == views(old(out)@) + command_calls(
            DrawCommand::Image { x, y, w, h, image, color },
        ),
{
    let ghost before = views(out@);
    emit(out, GdiCall::DrawImage { x: x as i32, y: y as i32, w: w as i32, h: h as i32, image });
    proof {
        assert(views(out@) =~= before + command_calls(
            DrawCommand::Image { x, y, w, h, image, color },
        ));
    }
}

/// Traces a path through `points`, back to the first one when `closed`.
fn trace_path(out: &mut Vec<Call>, points: &Vec<Vec2i>, closed: bool)
    ensures
        views(final(out)@) == views(old(out)@) + path(points@, closed),
{
    let ghost before = views(out@);
    let ghost pts = points@;
    if points.len() == 0 {
        proof {
            assert(views(out@) =~= before + path(pts, closed));
        }
        return;
    }
    let first = points[0];
    emit(out, GdiCall::MoveTo { x: first.x as i32, y: first.y as i32 });
    let ghost head = seq![GdiCall::MoveTo { x: point(pts[0]).x, y: point(pts[0]).y }];
    let mut i: usize = 1;
    while i < points.len()
        invariant
            1 <= i <= pts.len(),
            pts == points@,
            first == pts[0],
            views(out@) == before + head + Seq::new(
                (i - 1) as nat,
                |j: int| GdiCall::LineTo { x: point(pts[j + 1]).x, y: point(pts[j + 1]).y },
            ),
        decreases pts.len() - i,
    {
        let p = points[i];
        emit(out, GdiCall::LineTo { x: p.x as i32, y: p.y as i32 });
        proof {
            assert(views(out@) =~= before + head + Seq::new(
                i as nat,
                |j: int| GdiCall::LineTo { x: point(pts[j + 1]).x, y: point(pts[j + 1]).y },
            ));
        }
        i = i + 1;
    }
    if closed {
        emit(out, GdiCall::LineTo { x: first.x as i32, y: first.y as i32 });
    }
    proof {
        assert(views(out@) =~= before + path(pts, closed));
    }
}

/// Outlines a closed polygon.
pub fn stroke_polygon(out: &mut Vec<Call>, points: &Vec<Vec2i>, thickness: u16, color: Color)
    ensures
        views(final(out)@) == views(old(out)@) + stroked(thickness, color, path(points@, true)),
{
    let ghost before = views(out@);
    let c = convert_color(color);
    begin_pen(out, thickness, c);
    trace_path(out, points, true);
    end_pen(out, thickness);
    proof {
        assert(views(out@) =~= before + stroked(thickness, color, path(points@, true)));
    }
}

/// Draws an open polyline.
pub fn stroke_polyline(out: &mut Vec<Call>, points: &Vec<Vec2i>, thickness: u16, color: Color)
    ensures
        views(final(out)@) == views(old(out)@) + stroked(thickness, color, path(points@, false)),
{
    let ghost before = views(out@);
    let c = convert_color(color);
    begin_pen(out, thickness, c);
    trace_path(out, points, false);
    end_pen(out, thickness);
    proof {
        assert(views(out@) =~= before + stroked(thickness, color, path(points@, false)));
    }
}

/// The GDI points of command points.
fn gdi_points(points: &Vec<Vec2i>) -> (r: Vec<Point>)
    ensures
        r@ == points@.map_values(|v: Vec2i| point(v)),
{
    let mut r: Vec<Point> = Vec::new();
    let mut i: usize = 0;
    while i < points.len()
        invariant
            i <= points@.len(),
            r@ == points@.subrange(0, i as int).map_values(|v: Vec2i| point(v)),
        decreases points@.len() - i,
    {
        let p = points[i];
        r.push(Point { x: p.x as i32, y: p.y as i32 });
        proof {
            assert(r@ =~= points@.subrange(0, i + 1).map_values(|v: Vec2i| point(v)));
        }
        i = i + 1;
    }
    proof {
        assert(points@.subrange(0, points@.len() as int) =~= points@);
    }
    r
}

/// Fills a polygon; nothing is drawn for no points.
pub fn fill_polygon(out: &mut Vec<Call>, points: &Vec<Vec2i>, color: Color)
    ensures
        views(final(out)@) == views(old(out)@) + (if points@.len() == 0 {
            seq![]
        } else {
            seq![
                GdiCall::SetBrushColor { color: colorref(color) },
                GdiCall::SetPenColor { color: colorref(color) },
                GdiCall::Polygon { points: points@.map_values(|v: Vec2i| point(v)) },
            ]
        }),
{
    let ghost before = views(out@);
    if points.len() == 0 {
        proof {
            assert(views(out@) =~= before + seq![]);
        }
        return;
    }
    let c = convert_color(color);
    emit(out, GdiCall::SetBrushColor { color: c });
    emit(out, GdiCall::SetPenColor { color: c });
    emit(out, GdiCall::Polygon { points: gdi_points(points) });
    proof {
        assert(views(out@) =~= before + seq![
            GdiCall::SetBrushColor { color: colorref(color) },
            GdiCall::SetPenColor { color: colorref(color) },
            GdiCall::Polygon { points: points@.map_values(|v: Vec2i| point(v)) },
        ]);
    }
}

/// Draws UTF-8 text on an opaque background with a font.
pub fn draw_text(
    out: &mut Vec<Call>,
    x: i16,
    y: i16,
    text: &Vec<u8>,
    font: usize,
    background: Color,
    foreground: Color,
)
    ensures
        views(final(out)@) == views(old(out)@) + seq![
            GdiCall::SetBkColor { color: colorref(background) },
            GdiCall::SetTextColor { color: colorref(foreground) },
            GdiCall::SelectFont { font },
            GdiCall::TextOut { x: x as i32, y: y as i32, text: text@ },
            GdiCall::SetBrushColor { color: colorref(background) },
        ],
{
    let ghost before = views(out@);
    let bg = convert_color(background);
    let fg = convert_color(foreground);
    let copy = text.clone();
    proof {
        assert(copy@ =~= text@);
    }
    emit(out, GdiCall::SetBkColor { color: bg });
    emit(out, GdiCall::SetTextColor { color: fg });
    emit(out, GdiCall::SelectFont { font });
    emit(out, GdiCall::TextOut { x: x as i32, y: y as i32, text: copy });
    emit(out, GdiCall::SetBrushColor { color: bg });
    proof {
        assert(views(out@) =~= before + seq![
            GdiCall::SetBkColor { color: colorref(background) },
            GdiCall::SetTextColor { color: colorref(foreground) },
            GdiCall::SelectFont { font },
            GdiCall::TextOut { x: x as i32, y: y as i32, text: text@ },
            GdiCall::SetBrushColor { color: colorref(background) },
        ]);
    }
}

/// Appends the calls that draw one command.
pub fn draw_command(out: &mut Vec<Call>, cmd: &DrawCommand)
    ensures
        views(final(out)@) == views(old(out)@) + command_calls(*cmd),
{
    match cmd {
        DrawCommand::Scissor { x, y, w, h } => scissor(out, *x, *y, *w, *h),
        DrawCommand::Line { begin, end, thickness, color } => stroke_line(
            out,
            *begin,
            *end,
            *thickness,
            *color,
        ),
        DrawCommand::Curve { begin, ctrl0, ctrl1, end, thickness, color } => stroke_curve(
            out,
            *begin,
            *ctrl0,
            *ctrl1,
            *end,
            *thickness,
            *color,
        ),
        DrawCommand::Rect { x, y, w, h, rounding, thickness, color } => stroke_rect(
            out,
            *x,
            *y,
            *w,
            *h,
            *rounding,
            *thickness,
            *color,
        ),
        DrawCommand::RectFilled { x, y, w, h, rounding, color } => fill_rect(
            out,
            *x,
            *y,
            *w,
            *h,
            *rounding,
            *color,
        ),
        DrawCommand::Circle { x, y, w, h, thickness, color } => stroke_circle(
            out,
            *x,
            *y,
            *w,
            *h,
            *thickness,
            *color,
        ),
        DrawCommand::CircleFilled { x, y, w, h, color } => fill_circle(out, *x, *y, *w, *h, *color),
        DrawCommand::Arc { cx, cy, r, start, sweep, thickness, color } => stroke_arc(
            out,
            *cx,
            *cy,
            *r,
            *start,
            *sweep,
            *thickness,
            *color,
        ),
        DrawCommand::ArcFilled { cx, cy, r, start, sweep, color } => fill_arc(
            out,
            *cx,
            *cy,
            *r,
            *start,
            *sweep,
            *color,
        ),
        DrawCommand::Triangle { a, b, c, thickness, color } => stroke_triangle(
            out,
            *a,
            *b,
            *c,
            *thickness,
            *color,
        ),
        DrawCommand::TriangleFilled { a, b, c, color } => fill_triangle(out, *a, *b, *c, *color),
        DrawCommand::Polygon { points, thickness, color } => stroke_polygon(
            out,
            points,
            *thickness,
            *color,
        ),
        DrawCommand::PolygonFilled { points, color } => fill_polygon(out, points, *color),
        DrawCommand::Polyline { points, thickness, color } => stroke_polyline(
            out,
            points,
            *thickness,
            *color,
        ),
        DrawCommand::Text { x, y, w, h, text, font, background, foreground } => draw_text(
            out,
            *x,
            *y,
            text,
            *font,
            *background,
            *foreground,
        ),
        DrawCommand::Image { x, y, w, h, image, color } => draw_image(
            out,
            *x,
            *y,
            *w,
            *h,
            *image,
            *color,
        ),
        DrawCommand::Other => {
            proof {
                assert(views(out@) =~= views(out@) + command_calls(*cmd));
            }
        },
    }
}

/// The calls that start a frame: select the DC pen and brush, then fill the
/// whole surface with the clear colour.
pub open spec fn clear_calls(size: FrameSize, clear: Color) -> Seq<CallView> {
    seq![
        GdiCall::SelectStockPen,
        GdiCall::SelectStockBrush,
        GdiCall::SetBkColor { color: colorref(clear) },
        GdiCall::FillOpaque { left: 0, top: 0, right: size.width as i32, bottom: size.height as i32 },
    ]
}

/// The calls for a list of commands, one command after the other.
pub open spec fn commands_calls(cmds: Seq<DrawCommand>) -> Seq<CallView>
    decreases cmds.len(),
{
    if cmds.len() == 0 {
        seq![]
    } else {
        commands_calls(cmds.drop_last()) + command_calls(cmds.last())
    }
}

/// The calls that copy the finished frame to the window.
pub open spec fn blit_calls(size: FrameSize) -> Seq<CallView> {
    seq![GdiCall::Blit { width: size.width as i32, height: size.height as i32 }]
}

/// The calls for a whole frame.
pub open spec fn frame_calls(size: FrameSize, clear: Color, cmds: Seq<DrawCommand>) -> Seq<
    CallView,
> {
    clear_calls(size, clear) + commands_calls(cmds) + blit_calls(size)
}

/// Plans the calls that draw one frame on a surface of `size`: clear it,
/// draw each command in order, copy it to the window.
pub fn render(size: FrameSize, clear: Color, cmds: &Vec<DrawCommand>) -> (r: Vec<Call>)
    ensures
        views(r@) == frame_calls(size, clear, cmds@),
{
    let mut out: Vec<Call> = Vec::new();
    let w = size.width as i32;
    let h = size.height as i32;
    emit(&mut out, GdiCall::SelectStockPen);
    emit(&mut out, GdiCall::SelectStockBrush);
    emit(&mut out, GdiCall::SetBkColor { color: convert_color(clear) });
    emit(&mut out, GdiCall::FillOpaque { left: 0, top: 0, right: w, bottom: h });
    proof {
        assert(views(out@) =~= clear_calls(size, clear));
        assert(cmds@.subrange(0, 0) =~= Seq::<DrawCommand>::empty());
    }
    let mut i: usize = 0;
    while i < cmds.len()
        invariant
            i <= cmds@.len(),
            views(out@) == clear_calls(size, clear) + commands_calls(cmds@.subrange(0, i as int)),
        decreases cmds@.len() - i,
    {
        draw_command(&mut out, &cmds[i]);
        proof {
            let next = cmds@.subrange(0, i + 1);
            assert(next.drop_last() =~= cmds@.subrange(0, i as int));
            assert(next.last() == cmds@[i as int]);
            assert(views(out@) =~= clear_calls(size, clear) + commands_calls(next));
        }
        i = i + 1;
    }
    emit(&mut out, GdiCall::Blit { width: w, height: h });
    proof {
        assert(cmds@.subrange(0, cmds@.len() as int) =~= cmds@);
        assert(views(out@) =~= frame_calls(size, clear, cmds@));
    }
    out
}

} // verus!
