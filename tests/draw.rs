use nuklear_backend_gdi::draw::{fill_polygon, stroke_line, stroke_polyline};
use nuklear_backend_gdi::{render, Call, Color, DrawCommand, FrameSize, GdiCall, Point, Vec2i};

const RED: Color = Color { r: 255, g: 0, b: 0, a: 255 };
const RED_REF: u32 = 0x0000_00FF;
const BLUE: Color = Color { r: 0, g: 0, b: 255, a: 128 };
const BLUE_REF: u32 = 0x00FF_0000;
const SIZE: FrameSize = FrameSize { width: 200, height: 100 };

fn v(x: i16, y: i16) -> Vec2i {
    Vec2i { x, y }
}

fn p(x: i32, y: i32) -> Point {
    Point { x, y }
}

/// The calls for these commands alone, without the frame around them.
fn body(cmds: Vec<DrawCommand>) -> Vec<Call> {
    let all = render(SIZE, BLUE, &cmds);
    assert!(all.len() >= 5);
    all[4..all.len() - 1].to_vec()
}

#[test]
fn empty_frame_clears_and_blits() {
    let calls = render(SIZE, BLUE, &Vec::new());
    assert_eq!(
        calls,
        vec![
            GdiCall::SelectStockPen,
            GdiCall::SelectStockBrush,
            GdiCall::SetBkColor { color: BLUE_REF },
            GdiCall::FillOpaque { left: 0, top: 0, right: 200, bottom: 100 },
            GdiCall::Blit { width: 200, height: 100 },
        ]
    );
}

#[test]
fn commands_are_drawn_in_order() {
    let cmds = vec![
        DrawCommand::Scissor { x: 1, y: 2, w: 3, h: 4 },
        DrawCommand::Other,
        DrawCommand::Image { x: 5, y: 6, w: 7, h: 8, image: 42, color: RED },
    ];
    let calls = render(SIZE, RED, &cmds);
    assert_eq!(calls.len(), 8);
    assert_eq!(calls[2], GdiCall::SetBkColor { color: RED_REF });
    assert_eq!(calls[4], GdiCall::ResetClip);
    assert_eq!(calls[5], GdiCall::IntersectClip { left: 1, top: 2, right: 5, bottom: 7 });
    assert_eq!(calls[6], GdiCall::DrawImage { x: 5, y: 6, w: 7, h: 8, image: 42 });
    assert_eq!(calls[7], GdiCall::Blit { width: 200, height: 100 });
}

#[test]
fn scissor_with_negative_origin() {
    let calls = body(vec![DrawCommand::Scissor { x: -10, y: -5, w: 0, h: 65535 }]);
    assert_eq!(
        calls,
        vec![
            GdiCall::ResetClip,
            GdiCall::IntersectClip { left: -10, top: -5, right: -9, bottom: 65531 },
        ]
    );
}

#[test]
fn thin_line_recolours_the_dc_pen() {
    let mut out = Vec::new();
    stroke_line(&mut out, v(1, 2), v(3, 4), 1, RED);
    assert_eq!(
        out,
        vec![
            GdiCall::SetPenColor { color: RED_REF },
            GdiCall::MoveTo { x: 1, y: 2 },
            GdiCall::LineTo { x: 3, y: 4 },
        ]
    );
}

#[test]
fn thick_line_creates_and_restores_a_pen() {
    let calls = body(vec![DrawCommand::Line { begin: v(1, 2), end: v(3, 4), thickness: 3, color: RED }]);
    assert_eq!(
        calls,
        vec![
            GdiCall::CreatePen { width: 3, color: RED_REF },
            GdiCall::MoveTo { x: 1, y: 2 },
            GdiCall::LineTo { x: 3, y: 4 },
            GdiCall::RestorePen,
        ]
    );
}

#[test]
fn zero_thickness_also_creates_a_pen() {
    let calls = body(vec![DrawCommand::Circle { x: 0, y: 0, w: 4, h: 4, thickness: 0, color: RED }]);
    assert_eq!(
        calls,
        vec![
            GdiCall::CreatePen { width: 0, color: RED_REF },
            GdiCall::Ellipse { left: 0, top: 0, right: 4, bottom: 4 },
            GdiCall::RestorePen,
        ]
    );
}

#[test]
fn rectangles_square_and_rounded() {
    let calls = body(vec![
        DrawCommand::Rect { x: 10, y: 20, w: 30, h: 40, rounding: 0, thickness: 1, color: RED },
        DrawCommand::Rect { x: 10, y: 20, w: 30, h: 40, rounding: 5, thickness: 1, color: BLUE },
    ]);
    assert_eq!(
        calls,
        vec![
            GdiCall::SetPenColor { color: RED_REF },
            GdiCall::Rectangle { left: 10, top: 20, right: 40, bottom: 60 },
            GdiCall::SetPenColor { color: BLUE_REF },
            GdiCall::RoundRect { left: 10, top: 20, right: 40, bottom: 60, corner: 5 },
        ]
    );
}

#[test]
fn filled_rectangle_square_uses_opaque_fill() {
    let calls = body(vec![DrawCommand::RectFilled { x: -1, y: 2, w: 3, h: 4, rounding: 0, color: RED }]);
    assert_eq!(
        calls,
        vec![
            GdiCall::SetBkColor { color: RED_REF },
            GdiCall::FillOpaque { left: -1, top: 2, right: 2, bottom: 6 },
            GdiCall::SetBrushColor { color: RED_REF },
        ]
    );
}

#[test]
fn filled_rectangle_rounded() {
    let calls = body(vec![DrawCommand::RectFilled { x: 0, y: 0, w: 8, h: 6, rounding: 2, color: RED }]);
    assert_eq!(
        calls,
        vec![
            GdiCall::SetPenColor { color: RED_REF },
            GdiCall::SetBrushColor { color: RED_REF },
            GdiCall::RoundRect { left: 0, top: 0, right: 8, bottom: 6, corner: 2 },
            GdiCall::SetBrushColor { color: RED_REF },
        ]
    );
}

#[test]
fn filled_circle() {
    let calls = body(vec![DrawCommand::CircleFilled { x: 1, y: 1, w: 10, h: 20, color: BLUE }]);
    assert_eq!(
        calls,
        vec![
            GdiCall::SetBrushColor { color: BLUE_REF },
            GdiCall::SetPenColor { color: BLUE_REF },
            GdiCall::Ellipse { left: 1, top: 1, right: 11, bottom: 21 },
        ]
    );
}

#[test]
fn arcs_keep_angle_bits() {
    let start = 0.5f32.to_bits();
    let sweep = 1.25f32.to_bits();
    let calls = body(vec![
        DrawCommand::Arc { cx: 5, cy: 6, r: 7, start, sweep, thickness: 2, color: RED },
        DrawCommand::ArcFilled { cx: 5, cy: 6, r: 7, start, sweep, color: BLUE },
    ]);
    assert_eq!(
        calls,
        vec![
            GdiCall::CreatePen { width: 2, color: RED_REF },
            GdiCall::AngleArc { x: 5, y: 6, radius: 7, start, sweep },
            GdiCall::RestorePen,
            GdiCall::SetBrushColor { color: BLUE_REF },
            GdiCall::SetPenColor { color: BLUE_REF },
            GdiCall::AngleArc { x: 5, y: 6, radius: 7, start, sweep },
        ]
    );
    if let GdiCall::AngleArc { start, sweep, .. } = calls[1] {
        assert_eq!(f32::from_bits(start), 0.5);
        assert_eq!(f32::from_bits(sweep), 1.25);
    }
}

#[test]
fn triangles() {
    let calls = body(vec![
        DrawCommand::Triangle { a: v(0, 0), b: v(4, 0), c: v(0, 3), thickness: 1, color: RED },
        DrawCommand::TriangleFilled { a: v(0, 0), b: v(4, 0), c: v(0, 3), color: BLUE },
    ]);
    assert_eq!(
        calls,
        vec![
            GdiCall::SetPenColor { color: RED_REF },
            GdiCall::Polyline { points: vec![p(0, 0), p(4, 0), p(0, 3), p(0, 0)] },
            GdiCall::SetPenColor { color: BLUE_REF },
            GdiCall::SetBrushColor { color: BLUE_REF },
            GdiCall::Polygon { points: vec![p(0, 0), p(4, 0), p(0, 3)] },
        ]
    );
}

#[test]
fn polygon_outline_is_closed() {
    let pts = vec![v(1, 1), v(5, 1), v(5, 5)];
    let calls = body(vec![DrawCommand::Polygon { points: pts, thickness: 1, color: RED }]);
    assert_eq!(
        calls,
        vec![
            GdiCall::SetPenColor { color: RED_REF },
            GdiCall::MoveTo { x: 1, y: 1 },
            GdiCall::LineTo { x: 5, y: 1 },
            GdiCall::LineTo { x: 5, y: 5 },
            GdiCall::LineTo { x: 1, y: 1 },
        ]
    );
}

#[test]
fn polyline_stays_open() {
    let mut out = Vec::new();
    stroke_polyline(&mut out, &vec![v(1, 1), v(5, 1), v(5, 5)], 4, BLUE);
    assert_eq!(
        out,
        vec![
            GdiCall::CreatePen { width: 4, color: BLUE_REF },
            GdiCall::MoveTo { x: 1, y: 1 },
            GdiCall::LineTo { x: 5, y: 1 },
            GdiCall::LineTo { x: 5, y: 5 },
            GdiCall::RestorePen,
        ]
    );
}

#[test]
fn empty_outlines_only_pick_the_pen() {
    let calls = body(vec![
        DrawCommand::Polygon { points: Vec::new(), thickness: 1, color: RED },
        DrawCommand::Polyline { points: Vec::new(), thickness: 2, color: RED },
    ]);
    assert_eq!(
        calls,
        vec![
            GdiCall::SetPenColor { color: RED_REF },
            GdiCall::CreatePen { width: 2, color: RED_REF },
            GdiCall::RestorePen,
        ]
    );
}

#[test]
fn filled_polygon() {
    let mut out = Vec::new();
    fill_polygon(&mut out, &vec![v(-1, -2), v(3, 4), v(5, -6), v(7, 8)], RED);
    assert_eq!(
        out,
        vec![
            GdiCall::SetBrushColor { color: RED_REF },
            GdiCall::SetPenColor { color: RED_REF },
            GdiCall::Polygon { points: vec![p(-1, -2), p(3, 4), p(5, -6), p(7, 8)] },
        ]
    );
}

#[test]
fn filled_polygon_without_points_draws_nothing() {
    let calls = body(vec![DrawCommand::PolygonFilled { points: Vec::new(), color: RED }]);
    assert!(calls.is_empty());
}

#[test]
fn filled_polygon_with_many_points() {
    let pts: Vec<Vec2i> = (0..100).map(|i| v(i, -i)).collect();
    let calls = body(vec![DrawCommand::PolygonFilled { points: pts, color: RED }]);
    assert_eq!(calls.len(), 3);
    match &calls[2] {
        GdiCall::Polygon { points } => {
            assert_eq!(points.len(), 100);
            assert_eq!(points[99], p(99, -99));
        }
        other => panic!("unexpected call {:?}", other),
    }
}

#[test]
fn curve_passes_four_points() {
    let calls = body(vec![DrawCommand::Curve {
        begin: v(0, 0),
        ctrl0: v(1, 5),
        ctrl1: v(4, 5),
        end: v(5, 0),
        thickness: 1,
        color: RED,
    }]);
    assert_eq!(
        calls,
        vec![
            GdiCall::SetPenColor { color: RED_REF },
            GdiCall::PolyBezier { points: vec![p(0, 0), p(1, 5), p(4, 5), p(5, 0)] },
        ]
    );
}

#[test]
fn text_sets_colours_and_font() {
    let calls = body(vec![DrawCommand::Text {
        x: 3,
        y: 4,
        w: 50,
        h: 12,
        text: "h\u{e9}llo".as_bytes().to_vec(),
        font: 77,
        background: BLUE,
        foreground: RED,
    }]);
    assert_eq!(
        calls,
        vec![
            GdiCall::SetBkColor { color: BLUE_REF },
            GdiCall::SetTextColor { color: RED_REF },
            GdiCall::SelectFont { font: 77 },
            GdiCall::TextOut { x: 3, y: 4, text: "h\u{e9}llo".as_bytes().to_vec() },
            GdiCall::SetBrushColor { color: BLUE_REF },
        ]
    );
}

#[test]
fn unsupported_commands_draw_nothing() {
    assert!(body(vec![DrawCommand::Other, DrawCommand::Other]).is_empty());
}
