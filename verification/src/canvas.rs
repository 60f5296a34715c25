//! The canvas renderer's drawing plan.
//!
//! One frame of the demo is a fixed, ordered sequence of immediate-mode
//! drawing operations: a white background, two stroked quadratic curves, a
//! translucent square, a line of text drawn inside a saved transform scope
//! rotated by an eighth turn, the same text drawn unrotated, and finally the
//! synthetic image scaled over the whole canvas. This module produces that
//! sequence as data, with the exact operations pinned down by the contract,
//! and gives the save/rotate/restore operations their meaning: a small
//! interpreter of the ambient rotation, over which scope isolation is proved.
//! The unverified shell replays the sequence against a real 2D rasterizer.

use vstd::prelude::*;
use vstd::string::StringExecFns;

verus! {

/// A color with an alpha channel, one byte per channel.
#[derive(Clone, Copy, PartialEq, Eq, Structural, Debug)]
pub struct Rgba {
    pub red: u8,
    pub green: u8,
    pub blue: u8,
    pub alpha: u8,
}

/// One immediate-mode drawing operation. Coordinates are in canvas pixels
/// from the top-left corner; every coordinate the demo uses is integral.
#[derive(Clone, PartialEq, Eq, Debug)]
pub enum CanvasOp {
    /// Fill the axis-aligned rectangle with the color.
    FillRect { x: u32, y: u32, width: u32, height: u32, color: Rgba },
    /// Stroke one quadratic Bezier curve from the start point to the end
    /// point through the control point.
    StrokeQuadCurve {
        start_x: u32,
        start_y: u32,
        ctrl_x: u32,
        ctrl_y: u32,
        end_x: u32,
        end_y: u32,
        color: Rgba,
        stroke_width: u32,
    },
    /// Save the current transform; a later `Restore` brings it back whatever
    /// happened in between.
    Save,
    /// Rotate the canvas about its origin by the angle, counted in degrees.
    RotateDegrees { degrees: u32 },
    /// Lay out `text` in a sans-serif face at `font_size` and draw it with
    /// its top-left at `(x, y)` in the current (possibly rotated) frame.
    DrawText { x: u32, y: u32, font_size: u32, color: Rgba, text: String },
    /// Restore the transform saved by the matching `Save`.
    Restore,
    /// Draw the synthetic image of `image_width * image_height` pixels,
    /// scaled with bilinear interpolation to fill the rectangle from the
    /// origin to `(dest_width, dest_height)`.
    DrawImage { image_width: u32, image_height: u32, dest_width: u32, dest_height: u32 },
    /// Finalize the drawing context; a failure here is tolerated.
    Finish,
}

/// The text the demo draws, as a sequence of characters.
pub open spec fn canvas_text() -> Seq<char> {
    "Hello from Piet + Winit"@
}

/// Opaque white.
pub open spec fn white() -> Rgba {
    Rgba { red: 255, green: 255, blue: 255, alpha: 255 }
}

/// Opaque dark red.
pub open spec fn dark_red() -> Rgba {
    Rgba { red: 128, green: 0, blue: 0, alpha: 255 }
}

/// Opaque dark green.
pub open spec fn dark_green() -> Rgba {
    Rgba { red: 0, green: 128, blue: 0, alpha: 255 }
}

/// Half-transparent black.
pub open spec fn translucent_black() -> Rgba {
    Rgba { red: 0, green: 0, blue: 0, alpha: 127 }
}

/// How one operation changes the ambient rotation (in degrees) and the stack
/// of rotations saved by `Save` and not yet restored. Drawing operations
/// leave both alone; an unmatched `Restore` is a no-op.
pub open spec fn op_transform(op: CanvasOp, stack: Seq<int>, current: int) -> (Seq<int>, int) {
    match op {
        CanvasOp::Save => (stack.push(current), current),
        CanvasOp::RotateDegrees { degrees } => (stack, current + degrees),
        CanvasOp::Restore => if stack.len() > 0 {
            (stack.drop_last(), stack.last())
        } else {
            (stack, current)
        },
        _ => (stack, current),
    }
}

/// Run the transform interpreter over a whole sequence of operations.
pub open spec fn run_transform(ops: Seq<CanvasOp>, stack: Seq<int>, current: int) -> (
    Seq<int>,
    int,
)
    decreases ops.len(),
{
    if ops.len() == 0 {
        (stack, current)
    } else {
        let (stack2, current2) = op_transform(ops.first(), stack, current);
        run_transform(ops.drop_first(), stack2, current2)
    }
}

/// The ambient rotation in effect when the operation at index `i` executes,
/// starting from the identity transform.
pub open spec fn rotation_at(ops: Seq<CanvasOp>, i: int) -> int {
    run_transform(ops.take(i), Seq::empty(), 0).1
}

/// Whether the operation paints over the whole of the pixel at `(px, py)`.
/// Only the area-filling operations count: strokes and text cover thin,
/// rasterizer-dependent sets of pixels and are not modeled as coverage.
pub open spec fn covers(op: CanvasOp, px: int, py: int) -> bool {
    match op {
        CanvasOp::FillRect { x, y, width, height, .. } => x <= px < x + width && y <= py < y
            + height,
        CanvasOp::DrawImage { dest_width, dest_height, .. } => 0 <= px < dest_width && 0 <= py
            < dest_height,
        _ => false,
    }
}

/// The text the demo draws, as an executable string.
pub fn canvas_text_string() -> (s: String)
    ensures
        s@ == canvas_text(),
{
    String::from_str("Hello from Piet + Winit")
}

/// The complete statement of one frame's drawing plan on a canvas of
/// `width * height` pixels: exactly eleven operations, in order a white
/// background fill, the two stroked curves, the translucent square, the text
/// rotated by 45 degrees inside a save/restore scope, the unrotated text, the
/// synthetic image scaled over the whole canvas, and the finalize.
pub open spec fn frame_plan(ops: Seq<CanvasOp>, width: u32, height: u32) -> bool {
    &&& ops.len() == 11
    &&& ops[0] == (CanvasOp::FillRect { x: 0, y: 0, width, height, color: white() })
    &&& ops[1] == (CanvasOp::StrokeQuadCurve {
        start_x: 0,
        start_y: height,
        ctrl_x: 40,
        ctrl_y: 50,
        end_x: width,
        end_y: 0,
        color: dark_red(),
        stroke_width: 5,
    })
    &&& ops[2] == (CanvasOp::StrokeQuadCurve {
        start_x: 0,
        start_y: 0,
        ctrl_x: 40,
        ctrl_y: 50,
        end_x: width,
        end_y: height,
        color: dark_green(),
        stroke_width: 5,
    })
    &&& ops[3] == (CanvasOp::FillRect {
        x: 10,
        y: 10,
        width: 100,
        height: 100,
        color: translucent_black(),
    })
    &&& ops[4] == CanvasOp::Save
    &&& ops[5] == (CanvasOp::RotateDegrees { degrees: 45 })
    &&& (ops[6] matches CanvasOp::DrawText { x: 80, y: 40, font_size: 24, color, text }
        && color == translucent_black() && text@ == canvas_text())
    &&& ops[7] == CanvasOp::Restore
    &&& (ops[8] matches CanvasOp::DrawText { x: 100, y: 25, font_size: 24, color, text }
        && color == dark_red() && text@ == canvas_text())
    &&& ops[9] == (CanvasOp::DrawImage {
        image_width: 256,
        image_height: 256,
        dest_width: width,
        dest_height: height,
    })
    &&& ops[10] == CanvasOp::Finish
}

/// The drawing plan for one frame on a canvas of `width * height` pixels.
///
/// The contract pins every operation down, through `frame_plan`.
pub fn canvas_ops(width: u32, height: u32) -> (ops: Vec<CanvasOp>)
    ensures
        frame_plan(ops@, width, height),
{
    let mut ops: Vec<CanvasOp> = Vec::new();
    ops.push(CanvasOp::FillRect { x: 0, y: 0, width, height, color: white_color() });
    ops.push(CanvasOp::StrokeQuadCurve {
        start_x: 0,
        start_y: height,
        ctrl_x: 40,
        ctrl_y: 50,
        end_x: width,
        end_y: 0,
        color: dark_red_color(),
        stroke_width: 5,
    });
    ops.push(CanvasOp::StrokeQuadCurve {
        start_x: 0,
        start_y: 0,
        ctrl_x: 40,
        ctrl_y: 50,
        end_x: width,
        end_y: height,
        color: dark_green_color(),
        stroke_width: 5,
    });
    ops.push(CanvasOp::FillRect {
        x: 10,
        y: 10,
        width: 100,
        height: 100,
        color: translucent_black_color(),
    });
    ops.push(CanvasOp::Save);
    ops.push(CanvasOp::RotateDegrees { degrees: 45 });
    ops.push(CanvasOp::DrawText {
        x: 80,
        y: 40,
        font_size: 24,
        color: translucent_black_color(),
        text: canvas_text_string(),
    });
    ops.push(CanvasOp::Restore);
    ops.push(CanvasOp::DrawText {
        x: 100,
        y: 25,
        font_size: 24,
        color: dark_red_color(),
        text: canvas_text_string(),
    });
    ops.push(CanvasOp::DrawImage {
        image_width: 256,
        image_height: 256,
        dest_width: width,
        dest_height: height,
    });
    ops.push(CanvasOp::Finish);
    ops
}

/// Opaque white as an executable value.
fn white_color() -> (c: Rgba)
    ensures
        c == white(),
{
    Rgba { red: 255, green: 255, blue: 255, alpha: 255 }
}

/// Opaque dark red as an executable value.
fn dark_red_color() -> (c: Rgba)
    ensures
        c == dark_red(),
{
    Rgba { red: 128, green: 0, blue: 0, alpha: 255 }
}

/// Opaque dark green as an executable value.
fn dark_green_color() -> (c: Rgba)
    ensures
        c == dark_green(),
{
    Rgba { red: 0, green: 128, blue: 0, alpha: 255 }
}

/// Half-transparent black as an executable value.
fn translucent_black_color() -> (c: Rgba)
    ensures
        c == translucent_black(),
{
    Rgba { red: 0, green: 0, blue: 0, alpha: 127 }
}

/// Running the transform interpreter over a concatenation runs it over the
/// two halves in turn.
pub proof fn lemma_run_append(a: Seq<CanvasOp>, b: Seq<CanvasOp>, stack: Seq<int>, current: int)
    ensures
        run_transform(a + b, stack, current) == ({
            let (stack2, current2) = run_transform(a, stack, current);
            run_transform(b, stack2, current2)
        }),
    decreases a.len(),
{
    if a.len() == 0 {
        assert(a + b =~= b);
    } else {
        let (stack2, current2) = op_transform(a.first(), stack, current);
        assert((a + b).first() == a.first());
        assert((a + b).drop_first() =~= a.drop_first() + b);
        lemma_run_append(a.drop_first(), b, stack2, current2);
    }
}

/// A run over operations that neither save nor restore leaves the stack of
/// saved transforms untouched.
pub proof fn lemma_run_keeps_stack(a: Seq<CanvasOp>, stack: Seq<int>, current: int)
    requires
        forall|k: int| 0 <= k < a.len() ==> !(a[k] is Save) && !(a[k] is Restore),
    ensures
        run_transform(a, stack, current).0 == stack,
    decreases a.len(),
{
    if a.len() > 0 {
        let (stack2, current2) = op_transform(a.first(), stack, current);
        assert(stack2 == stack);
        lemma_run_keeps_stack(a.drop_first(), stack2, current2);
    }
}

/// One more operation extends a prefix run by one interpreter step.
pub proof fn lemma_run_step(ops: Seq<CanvasOp>, i: int)
    requires
        0 <= i < ops.len(),
    ensures
        run_transform(ops.take(i + 1), Seq::empty(), 0) == ({
            let (stack, current) = run_transform(ops.take(i), Seq::empty(), 0);
            op_transform(ops[i], stack, current)
        }),
{
    reveal_with_fuel(run_transform, 3);
    let single = seq![ops[i]];
    assert(ops.take(i + 1) =~= ops.take(i) + single);
    lemma_run_append(ops.take(i), single, Seq::empty(), 0);
    let (stack, current) = run_transform(ops.take(i), Seq::empty(), 0);
    let (stack2, current2) = op_transform(ops[i], stack, current);
    assert(single.first() == ops[i]);
    assert(single.drop_first() =~= Seq::<CanvasOp>::empty());
    assert(run_transform(single, stack, current) == (stack2, current2));
}

/// Scope isolation: a save/restore pair with only drawing or rotation
/// operations between them leaves both the ambient rotation and the stack of
/// saved transforms exactly as they were before the save, whatever the scope
/// did.
pub proof fn lemma_scope_isolated(ops: Seq<CanvasOp>, i: int, j: int)
    requires
        0 <= i < j < ops.len(),
        ops[i] is Save,
        ops[j] is Restore,
        forall|k: int| i < k < j ==> !(ops[k] is Save) && !(ops[k] is Restore),
    ensures
        rotation_at(ops, j + 1) == rotation_at(ops, i),
        run_transform(ops.take(j + 1), Seq::empty(), 0).0 == run_transform(
            ops.take(i),
            Seq::empty(),
            0,
        ).0,
{
    let (stack_i, current_i) = run_transform(ops.take(i), Seq::empty(), 0);
    lemma_run_step(ops, i);
    let (stack_s, current_s) = run_transform(ops.take(i + 1), Seq::empty(), 0);
    assert(stack_s == stack_i.push(current_i));
    assert(current_s == current_i);
    let middle = ops.subrange(i + 1, j);
    assert(ops.take(j) =~= ops.take(i + 1) + middle);
    lemma_run_append(ops.take(i + 1), middle, Seq::empty(), 0);
    let (stack_m, current_m) = run_transform(ops.take(j), Seq::empty(), 0);
    assert(forall|k: int|
        0 <= k < middle.len() ==> !(middle[k] is Save) && !(middle[k] is Restore));
    lemma_run_keeps_stack(middle, stack_s, current_s);
    assert(stack_m == stack_i.push(current_i));
    lemma_run_step(ops, j);
    assert(stack_m.len() > 0);
    assert(stack_m.last() == current_i);
    assert(stack_m.drop_last() =~= stack_i);
}

/// In the frame plan, the text inside the saved scope is drawn under a
/// rotation of 45 degrees, while the unrotated text and every operation after
/// the scope run under the identity transform: nothing the scope did leaks
/// out of it.
pub proof fn lemma_frame_scope_isolated(ops: Seq<CanvasOp>, width: u32, height: u32)
    requires
        frame_plan(ops, width, height),
    ensures
        rotation_at(ops, 6) == 45,
        forall|k: int| 8 <= k <= 10 ==> rotation_at(ops, k) == 0,
{
    assert(ops.take(0) =~= Seq::<CanvasOp>::empty());
    assert(run_transform(ops.take(0), Seq::empty(), 0) == (Seq::<int>::empty(), 0int));
    lemma_run_step(ops, 0);
    lemma_run_step(ops, 1);
    lemma_run_step(ops, 2);
    lemma_run_step(ops, 3);
    assert(rotation_at(ops, 4) == 0);
    assert(run_transform(ops.take(4), Seq::empty(), 0).0 =~= Seq::<int>::empty());
    lemma_run_step(ops, 4);
    lemma_run_step(ops, 5);
    assert(rotation_at(ops, 6) == 45);
    lemma_scope_isolated(ops, 4, 7);
    assert(rotation_at(ops, 8) == 0);
    lemma_run_step(ops, 8);
    assert(rotation_at(ops, 9) == 0);
    lemma_run_step(ops, 9);
    assert(rotation_at(ops, 10) == 0);
}

/// The unrotated text draws under the very transform it would draw under if
/// the saved scope — save, rotate and rotated text, indices 4 through 7 —
/// were removed from the plan altogether: whether the rotated text executed
/// first makes no difference to it.
pub proof fn lemma_plan_invariant_without_scope(ops: Seq<CanvasOp>, width: u32, height: u32)
    requires
        frame_plan(ops, width, height),
    ensures
        rotation_at(ops, 8) == rotation_at(ops.take(4) + ops.skip(8), 4),
{
    lemma_frame_scope_isolated(ops, width, height);
    assert(ops.take(0) =~= Seq::<CanvasOp>::empty());
    lemma_run_step(ops, 0);
    lemma_run_step(ops, 1);
    lemma_run_step(ops, 2);
    lemma_run_step(ops, 3);
    assert(rotation_at(ops, 4) == 0);
    let trimmed = ops.take(4) + ops.skip(8);
    assert(trimmed.take(4) =~= ops.take(4));
    assert(rotation_at(trimmed, 4) == rotation_at(ops, 4));
}

/// The synthetic image is the last operation that paints areas, and it spans
/// the whole canvas: at every canvas pixel it overdraws whatever the earlier
/// fills put there, and nothing after it paints at all.
pub proof fn lemma_image_overdraws_last(
    ops: Seq<CanvasOp>,
    width: u32,
    height: u32,
    px: int,
    py: int,
)
    requires
        frame_plan(ops, width, height),
        0 <= px < width,
        0 <= py < height,
    ensures
        ops[9] is DrawImage,
        covers(ops[9], px, py),
        forall|k: int| 9 < k < ops.len() ==> !covers(ops[k], px, py),
{
}

} // verus!
