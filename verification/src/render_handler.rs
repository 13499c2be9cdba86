//! The frames that the embedded browser paints off the screen.

use std::sync::Arc;
use vstd::arithmetic::div_mod::lemma_fundamental_div_mod_converse;
use vstd::arithmetic::mul::{lemma_mul_inequality, lemma_mul_is_distributive_add_other_way};
use vstd::prelude::*;

verus! {

/// A frame: rows of pixels of four bytes each, without anything between the rows.
#[derive(Debug)]
pub struct WindowsFrame {
    pub data: Arc<Vec<u8>>,
    pub width: u32,
    pub height: u32,
}

/// The value of a [`WindowsFrame`].
#[verifier::ext_equal]
pub struct WindowsFrameView {
    pub data: Seq<u8>,
    pub width: u32,
    pub height: u32,
}

impl DeepView for WindowsFrame {
    type V = WindowsFrameView;

    open spec fn deep_view(&self) -> WindowsFrameView {
        WindowsFrameView { data: self.data@, width: self.width, height: self.height }
    }
}

impl Clone for WindowsFrame {
    fn clone(&self) -> (r: Self)
        ensures
            r.deep_view() == self.deep_view(),
    {
        WindowsFrame { data: self.data.clone(), width: self.width, height: self.height }
    }
}

/// What is painted to: the size of the view, and the frame that was painted last.
#[derive(Debug)]
pub struct RenderState {
    pub width: u32,
    pub height: u32,
    pub current_frame: Option<WindowsFrame>,
}

/// The value of a [`RenderState`].
#[verifier::ext_equal]
pub struct RenderStateView {
    pub width: u32,
    pub height: u32,
    pub current_frame: Option<WindowsFrameView>,
}

impl DeepView for RenderState {
    type V = RenderStateView;

    open spec fn deep_view(&self) -> RenderStateView {
        RenderStateView {
            width: self.width,
            height: self.height,
            current_frame: self.current_frame.deep_view(),
        }
    }
}

/// A rectangle.
#[derive(Clone, Copy, Debug, PartialEq, Eq, Structural)]
pub struct Rect {
    pub x: i32,
    pub y: i32,
    pub width: i32,
    pub height: i32,
}

/// The screen that the embedded browser is told of.
#[derive(Clone, Copy, Debug, PartialEq, Eq, Structural)]
pub struct ScreenInfo {
    pub rect: Rect,
    pub available_rect: Rect,
    pub depth: i32,
    pub depth_per_component: i32,
    pub is_monochrome: i32,
}

/// What is done about something that was painted.
#[derive(Clone, Copy, Debug, PartialEq, Eq, Structural)]
pub enum PaintDecision {
    /// It is not the view.
    Ignore,
    /// Nothing is known of it.
    NoInfo,
    /// There is no texture to read.
    NullTexture,
    Capture,
}

/// The rectangle of the view.
pub open spec fn view_rect_of(state: RenderStateView) -> Rect {
    Rect { x: 0, y: 0, width: state.width as i32, height: state.height as i32 }
}

impl Default for RenderState {
    /// A view of a usual size, with nothing painted.
    fn default() -> (r: Self)
        ensures
            r.deep_view() == (RenderStateView { width: 800, height: 600, current_frame: None }),
    {
        RenderState { width: 800, height: 600, current_frame: None }
    }
}

impl RenderState {
    /// The rectangle of the view.
    pub fn view_rect(&self) -> (r: Rect)
        ensures
            r == view_rect_of(self.deep_view()),
    {
        Rect {
            x: 0,
            y: 0,
            width: #[verifier::truncate] (self.width as i32),
            height: #[verifier::truncate] (self.height as i32),
        }
    }

    /// The screen that the embedded browser is told of: the view takes all of it.
    pub fn screen_info(&self) -> (r: ScreenInfo)
        ensures
            r == (ScreenInfo {
                rect: view_rect_of(self.deep_view()),
                available_rect: view_rect_of(self.deep_view()),
                depth: 32,
                depth_per_component: 8,
                is_monochrome: 0,
            }),
    {
        let rect = self.view_rect();
        ScreenInfo {
            rect,
            available_rect: rect,
            depth: 32,
            depth_per_component: 8,
            is_monochrome: 0,
        }
    }

    /// Takes in the frame that was painted.
    pub fn take_frame(&mut self, frame: WindowsFrame)
        ensures
            final(self).deep_view() == (RenderStateView {
                current_frame: Some(frame.deep_view()),
                ..old(self).deep_view()
            }),
    {
        self.current_frame = Some(frame);
    }
}

/// The place on the screen of a place in the view: they are the same.
pub fn screen_point(view_x: i32, view_y: i32) -> (r: (i32, i32))
    ensures
        r == (view_x, view_y),
{
    (view_x, view_y)
}

/// What is done about something that was painted.
pub fn on_accelerated_paint(is_view: bool, has_info: bool, has_texture: bool) -> (r: PaintDecision)
    ensures
        r == (if !is_view {
            PaintDecision::Ignore
        } else if !has_info {
            PaintDecision::NoInfo
        } else if !has_texture {
            PaintDecision::NullTexture
        } else {
            PaintDecision::Capture
        }),
{
    if !is_view {
        PaintDecision::Ignore
    } else if !has_info {
        PaintDecision::NoInfo
    } else if !has_texture {
        PaintDecision::NullTexture
    } else {
        PaintDecision::Capture
    }
}

/// The bytes of a frame whose rows stand `row_pitch` bytes apart in `mapped`: the first `row_bytes`
/// of each row.
pub open spec fn frame_bytes(
    mapped: Seq<u8>,
    row_pitch: int,
    row_bytes: int,
    rows: int,
) -> Seq<u8> {
    Seq::new(
        (row_bytes * rows) as nat,
        |k: int| mapped[(k / row_bytes) * row_pitch + k % row_bytes],
    )
}

/// `mapped` holds `rows` rows of `row_bytes` bytes that stand `row_pitch` bytes apart.
pub open spec fn holds_rows(mapped: Seq<u8>, row_pitch: int, row_bytes: int, rows: int) -> bool {
    rows > 0 ==> (rows - 1) * row_pitch + row_bytes <= mapped.len()
}

/// Reads a frame out of mapped memory, whose rows stand `row_pitch` bytes apart.
pub fn read_frame(mapped: &[u8], row_pitch: usize, width: u32, height: u32) -> (r: WindowsFrame)
    requires
        width * height * 4 <= u32::MAX,
        width * 4 <= u32::MAX,
        holds_rows(mapped@, row_pitch as int, width * 4, height as int),
    ensures
        r.deep_view() == (WindowsFrameView {
            data: frame_bytes(mapped@, row_pitch as int, width * 4, height as int),
            width,
            height,
        }),
{
    let row_bytes: usize = (width * 4) as usize;
    let rows: usize = height as usize;
    let len: usize = mapped.len();
    let ghost all = frame_bytes(mapped@, row_pitch as int, row_bytes as int, rows as int);
    let mut data: Vec<u8> = Vec::new();
    let mut y: usize = 0;
    let mut start: usize = 0;
    while y < rows
        invariant
            y <= rows,
            len == mapped@.len(),
            holds_rows(mapped@, row_pitch as int, row_bytes as int, rows as int),
            y < rows ==> start == y * row_pitch,
            all == frame_bytes(mapped@, row_pitch as int, row_bytes as int, rows as int),
            data@.len() == y * row_bytes,
            y * row_bytes <= row_bytes * rows,
            data@ == all.take(y * row_bytes),
        decreases rows - y,
    {
        proof {
            lemma_mul_inequality(y as int, rows - 1, row_pitch as int);
            lemma_mul_inequality(y + 1, rows as int, row_bytes as int);
            lemma_mul_is_distributive_add_other_way(row_bytes as int, y as int, 1);
            assert(row_bytes * rows == rows * row_bytes) by (nonlinear_arith);
        }
        let mut b: usize = 0;
        while b < row_bytes
            invariant
                y < rows,
                b <= row_bytes,
                len == mapped@.len(),
                start == y * row_pitch,
                start + row_bytes <= len,
                all == frame_bytes(mapped@, row_pitch as int, row_bytes as int, rows as int),
                y * row_bytes + row_bytes <= row_bytes * rows,
                data@.len() == y * row_bytes + b,
                data@ == all.take(y * row_bytes + b),
            decreases row_bytes - b,
        {
            let ghost k = y * row_bytes + b;
            proof {
                lemma_fundamental_div_mod_converse(k, row_bytes as int, y as int, b as int);
                assert(row_bytes * y == y * row_bytes) by (nonlinear_arith);
                assert(0 <= y * row_bytes) by (nonlinear_arith);
            }
            data.push(mapped[start + b]);
            assert(data@ =~= all.take(k + 1));
            b = b + 1;
        }
        y = y + 1;
        if y < rows {
            proof {
                lemma_mul_inequality(y as int, rows - 1, row_pitch as int);
                lemma_mul_is_distributive_add_other_way(row_pitch as int, y - 1, 1);
            }
            start = start + row_pitch;
        }
    }
    proof {
        assert(row_bytes * rows == rows * row_bytes) by (nonlinear_arith);
        assert(data@ =~= all);
    }
    WindowsFrame { data: Arc::new(data), width, height }
}

/// Each row of a frame is the row that it was read from.
pub proof fn lemma_frame_rows(
    mapped: Seq<u8>,
    row_pitch: int,
    row_bytes: int,
    rows: int,
    y: int,
    b: int,
)
    requires
        0 <= y < rows,
        0 <= b < row_bytes,
        0 <= row_pitch,
        holds_rows(mapped, row_pitch, row_bytes, rows),
    ensures
        frame_bytes(mapped, row_pitch, row_bytes, rows).len() == row_bytes * rows,
        y * row_bytes + b < row_bytes * rows,
        y * row_pitch + b < mapped.len(),
        frame_bytes(mapped, row_pitch, row_bytes, rows)[y * row_bytes + b] == mapped[y * row_pitch
            + b],
{
    lemma_fundamental_div_mod_converse(y * row_bytes + b, row_bytes, y, b);
    assert(y * row_bytes + b < row_bytes * rows && 0 <= y * row_bytes) by (nonlinear_arith)
        requires
            0 <= y < rows,
            0 <= b < row_bytes,
    ;
    assert(row_bytes * y == y * row_bytes) by (nonlinear_arith);
    lemma_mul_inequality(y, rows - 1, row_pitch);
}

/// Rows that stand close together are read as they are.
pub proof fn lemma_tight_rows_are_copied(mapped: Seq<u8>, row_bytes: int, rows: int)
    requires
        0 < row_bytes,
        0 <= rows,
        mapped.len() == row_bytes * rows,
    ensures
        frame_bytes(mapped, row_bytes, row_bytes, rows) == mapped,
{
    let frame = frame_bytes(mapped, row_bytes, row_bytes, rows);
    assert forall|k: int| 0 <= k < mapped.len() implies #[trigger] frame[k] == mapped[k] by {
        vstd::arithmetic::div_mod::lemma_fundamental_div_mod(k, row_bytes);
        assert(row_bytes * (k / row_bytes) == (k / row_bytes) * row_bytes) by (nonlinear_arith);
    }
    assert(frame =~= mapped);
}

} // verus!
