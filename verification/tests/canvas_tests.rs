use piet_demo::canvas::{canvas_ops, CanvasOp, Rgba};
use piet_demo::image::make_image_data;

const WHITE: Rgba = Rgba { red: 255, green: 255, blue: 255, alpha: 255 };
const DARK_RED: Rgba = Rgba { red: 128, green: 0, blue: 0, alpha: 255 };
const DARK_GREEN: Rgba = Rgba { red: 0, green: 128, blue: 0, alpha: 255 };
const TRANSLUCENT_BLACK: Rgba = Rgba { red: 0, green: 0, blue: 0, alpha: 127 };
const TEXT: &str = "Hello from Piet + Winit";

#[test]
fn frame_plan_is_the_fixed_sequence() {
    let ops = canvas_ops(400, 400);
    assert_eq!(ops.len(), 11);
    assert_eq!(
        ops[0],
        CanvasOp::FillRect { x: 0, y: 0, width: 400, height: 400, color: WHITE }
    );
    assert_eq!(
        ops[1],
        CanvasOp::StrokeQuadCurve {
            start_x: 0,
            start_y: 400,
            ctrl_x: 40,
            ctrl_y: 50,
            end_x: 400,
            end_y: 0,
            color: DARK_RED,
            stroke_width: 5,
        }
    );
    assert_eq!(
        ops[2],
        CanvasOp::StrokeQuadCurve {
            start_x: 0,
            start_y: 0,
            ctrl_x: 40,
            ctrl_y: 50,
            end_x: 400,
            end_y: 400,
            color: DARK_GREEN,
            stroke_width: 5,
        }
    );
    assert_eq!(
        ops[3],
        CanvasOp::FillRect { x: 10, y: 10, width: 100, height: 100, color: TRANSLUCENT_BLACK }
    );
    assert_eq!(ops[4], CanvasOp::Save);
    assert_eq!(ops[5], CanvasOp::RotateDegrees { degrees: 45 });
    assert_eq!(
        ops[6],
        CanvasOp::DrawText {
            x: 80,
            y: 40,
            font_size: 24,
            color: TRANSLUCENT_BLACK,
            text: String::from(TEXT),
        }
    );
    assert_eq!(ops[7], CanvasOp::Restore);
    assert_eq!(
        ops[8],
        CanvasOp::DrawText {
            x: 100,
            y: 25,
            font_size: 24,
            color: DARK_RED,
            text: String::from(TEXT),
        }
    );
    assert_eq!(
        ops[9],
        CanvasOp::DrawImage {
            image_width: 256,
            image_height: 256,
            dest_width: 400,
            dest_height: 400,
        }
    );
    assert_eq!(ops[10], CanvasOp::Finish);
}

#[test]
fn plan_scales_with_the_canvas() {
    let ops = canvas_ops(800, 600);
    assert_eq!(
        ops[0],
        CanvasOp::FillRect { x: 0, y: 0, width: 800, height: 600, color: WHITE }
    );
    assert_eq!(
        ops[9],
        CanvasOp::DrawImage {
            image_width: 256,
            image_height: 256,
            dest_width: 800,
            dest_height: 600,
        }
    );
}

#[test]
fn rotation_is_scoped_between_save_and_restore() {
    let ops = canvas_ops(400, 400);
    // The only rotation sits strictly inside the save/restore pair, so the
    // unrotated text and everything after it run under the identity
    // transform.
    let save = ops.iter().position(|op| *op == CanvasOp::Save).unwrap();
    let rotate = ops
        .iter()
        .position(|op| matches!(op, CanvasOp::RotateDegrees { .. }))
        .unwrap();
    let restore = ops.iter().position(|op| *op == CanvasOp::Restore).unwrap();
    assert!(save < rotate && rotate < restore);
    assert!(ops[restore + 1..]
        .iter()
        .all(|op| !matches!(op, CanvasOp::RotateDegrees { .. })));
}

#[test]
fn unrotated_draws_are_invariant_to_the_scope() {
    // Dropping the whole saved scope (steps save..restore) leaves every
    // operation outside it untouched, unrotated text included.
    let full = canvas_ops(400, 400);
    let without_scope: Vec<&CanvasOp> = full[..4].iter().chain(full[8..].iter()).collect();
    assert_eq!(without_scope.len(), 7);
    assert_eq!(
        *without_scope[4],
        CanvasOp::DrawText {
            x: 100,
            y: 25,
            font_size: 24,
            color: DARK_RED,
            text: String::from(TEXT),
        }
    );
}

#[test]
fn image_draw_is_the_last_paint_and_spans_the_canvas() {
    let ops = canvas_ops(400, 400);
    // After the image draw only the finalize remains: at every canvas pixel
    // the scaled synthetic image is composited last.
    assert!(matches!(ops[9], CanvasOp::DrawImage { .. }));
    assert_eq!(ops[10], CanvasOp::Finish);
    if let CanvasOp::DrawImage { dest_width, dest_height, .. } = ops[9] {
        assert!(200 < dest_width && 200 < dest_height);
    }
}

#[test]
fn scaled_source_color_under_canvas_center() {
    // The canvas pixel (200, 200) of a 400x400 frame maps to the synthetic
    // image's own pixel (128, 128): 200 * 256 / 400. That source pixel is
    // [128, 128, 127, 127], and it is what the final image draw puts there,
    // not the translucent black of the square beneath.
    let sx = 200usize * 256 / 400;
    let sy = 200usize * 256 / 400;
    assert_eq!((sx, sy), (128, 128));
    let data = make_image_data(256, 256);
    let ix = (sy * 256 + sx) * 4;
    assert_eq!(&data[ix..ix + 4], &[128, 128, 127, 127]);
    assert_ne!(&data[ix..ix + 4], &[0, 0, 0, 127]);
}
