use vstd::prelude::*;
use crate::render::color::Color;
use crate::render::dual_buffer::{DualBuffer, DualBufferView};
use crate::render::point::Point2D;

verus! {

/// Vertex capacity of the triangle-list arena.
pub const TRIANGLES_MAX_VERTICES: u32 = 100;

/// Index capacity of the triangle-list arena.
pub const TRIANGLES_MAX_INDICES: u32 = 320;

/// Vertex capacity of the line-list arena.
pub const LINES_MAX_VERTICES: u32 = 50;

/// Index capacity of the line-list arena.
pub const LINES_MAX_INDICES: u32 = 100;

/// The frame controller's two states: between frames, or recording one.
#[derive(Clone, Copy, PartialEq, Eq, Structural, Debug)]
pub enum FrameState {
    Idle,
    InProgress,
}

/// What can go wrong when the presentation surface hands out the next
/// frame.
#[derive(Clone, Copy, PartialEq, Eq, Structural, Debug)]
pub enum SurfaceError {
    /// The surface was lost and must be rebuilt.
    Lost,
    /// The device is out of memory.
    OutOfMemory,
    /// The surface timed out handing out an image.
    Timeout,
    /// The surface no longer matches the window.
    Outdated,
}

/// What the caller must do about a `SurfaceError`.
#[derive(Clone, Copy, PartialEq, Eq, Structural, Debug)]
pub enum FrameAction {
    /// Rebuild the presentation chain at the current size, then try again
    /// next frame.
    Reconfigure,
    /// Fatal: report and terminate.
    Terminate,
    /// Transient: skip this frame and try again next loop iteration.
    SkipFrame,
}

/// The fixed mapping from a surface error to the caller's move: a lost
/// surface is rebuilt, running out of device memory is fatal, a timeout or
/// an outdated surface only skips the frame.
pub open spec fn classify_spec(e: SurfaceError) -> FrameAction {
    match e {
        SurfaceError::Lost => FrameAction::Reconfigure,
        SurfaceError::OutOfMemory => FrameAction::Terminate,
        SurfaceError::Timeout => FrameAction::SkipFrame,
        SurfaceError::Outdated => FrameAction::SkipFrame,
    }
}

/// Maps a surface error to the action the frame loop takes.
pub fn classify_surface_error(e: SurfaceError) -> (a: FrameAction)
    ensures
        a == classify_spec(e),
{
    match e {
        SurfaceError::Lost => FrameAction::Reconfigure,
        SurfaceError::OutOfMemory => FrameAction::Terminate,
        SurfaceError::Timeout => FrameAction::SkipFrame,
        SurfaceError::Outdated => FrameAction::SkipFrame,
    }
}

/// One queued text draw: rasterization happens in a single batched pass at
/// the end of the frame.
pub struct QueuedText {
    pub text: String,
    pub position: Point2D,
    pub color: Color,
    pub scale: i64,
}

/// What a finished frame asks the GPU side to do, in order: upload the
/// dirty arena mirrors, draw the triangle arena, draw the line arena if it
/// holds anything, then draw the queued text over the same target.
pub struct FramePlan {
    /// Copy the triangle arena's mirrors to its GPU buffers first.
    pub upload_triangles: bool,
    /// Copy the line arena's mirrors to its GPU buffers first.
    pub upload_lines: bool,
    /// How many indices the triangle pass draws.
    pub triangles_index_count: u32,
    /// Whether the line pass runs at all.
    pub draw_lines: bool,
    /// How many indices the line pass draws.
    pub lines_index_count: u32,
    /// The text draws queued during the frame, in queue order.
    pub text: Vec<QueuedText>,
}

/// The mathematical image of a `Renderer`.
pub ghost struct RendererView {
    pub triangles: DualBufferView,
    pub lines: DualBufferView,
    pub width: u32,
    pub height: u32,
    pub state: FrameState,
    pub text_queue: Seq<QueuedText>,
}

/// The frame controller: owns the two arenas, the output size, the queued
/// text and the frame state, and sequences uploads and passes of a frame.
/// Everything that touches the GPU or the window lives with the caller; it
/// executes the returned `FramePlan`.
pub struct Renderer {
    /// The arena every filled shape (polygons, rectangles) draws from.
    pub triangles_buffer: DualBuffer,
    /// The arena every line-list shape draws from.
    pub lines_buffer: DualBuffer,
    /// Output width in pixels.
    pub width: u32,
    /// Output height in pixels.
    pub height: u32,
    /// Whether a frame is being recorded.
    pub state: FrameState,
    /// The text draws queued for the end of the current frame.
    pub text_queue: Vec<QueuedText>,
}

impl View for Renderer {
    type V = RendererView;

    open spec fn view(&self) -> RendererView {
        RendererView {
            triangles: self.triangles_buffer@,
            lines: self.lines_buffer@,
            width: self.width,
            height: self.height,
            state: self.state,
            text_queue: self.text_queue@,
        }
    }
}

impl RendererView {
    /// Both arenas are well-formed.
    pub open spec fn wf(&self) -> bool {
        &&& self.triangles.wf()
        &&& self.lines.wf()
    }
}

impl Renderer {
    /// A new controller for an output of the given pixel size: two fresh
    /// arenas at the fixed capacities, an empty text queue, no frame in
    /// progress.
    pub fn new(width: u32, height: u32) -> (r: Renderer)
        ensures
            r@.wf(),
            r@.triangles.max_vertices == TRIANGLES_MAX_VERTICES,
            r@.triangles.max_indices == TRIANGLES_MAX_INDICES,
            r@.lines.max_vertices == LINES_MAX_VERTICES,
            r@.lines.max_indices == LINES_MAX_INDICES,
            r@.triangles.allocations.len() == 0,
            r@.lines.allocations.len() == 0,
            r@.triangles.dirty == false,
            r@.lines.dirty == false,
            r@.width == width,
            r@.height == height,
            r@.state == FrameState::Idle,
            r@.text_queue.len() == 0,
    {
        Renderer {
            triangles_buffer: DualBuffer::new(TRIANGLES_MAX_VERTICES, TRIANGLES_MAX_INDICES),
            lines_buffer: DualBuffer::new(LINES_MAX_VERTICES, LINES_MAX_INDICES),
            width,
            height,
            state: FrameState::Idle,
            text_queue: Vec::new(),
        }
    }

    /// The current output size in pixels, width then height.
    pub fn size(&self) -> (r: (u32, u32))
        ensures
            r.0 == self@.width,
            r.1 == self@.height,
    {
        (self.width, self.height)
    }

    /// Whether no frame is being recorded.
    pub fn is_idle(&self) -> (r: bool)
        ensures
            r == (self@.state == FrameState::Idle),
    {
        match self.state {
            FrameState::Idle => true,
            FrameState::InProgress => false,
        }
    }

    /// Adopts a new output size — but only between frames: while a frame
    /// is in progress the resize is rejected and nothing changes, and the
    /// caller retries after `render_finish`. Returns whether the size was
    /// adopted; the caller rebuilds the presentation chain exactly then.
    pub fn resize(&mut self, width: u32, height: u32) -> (applied: bool)
        ensures
            applied == (old(self)@.state == FrameState::Idle),
            applied ==> final(self)@ == (RendererView { width, height, ..old(self)@ }),
            !applied ==> *final(self) == *old(self),
    {
        match self.state {
            FrameState::Idle => {
                self.width = width;
                self.height = height;
                true
            },
            FrameState::InProgress => false,
        }
    }

    /// Opens a frame: the caller has acquired a surface image and a
    /// recording context; the controller only tracks that a frame is now
    /// in progress. Starting a frame while one is open is a caller error,
    /// kept out by the precondition.
    pub fn render_start(&mut self)
        requires
            old(self)@.state == FrameState::Idle,
        ensures
            final(self)@ == (RendererView { state: FrameState::InProgress, ..old(self)@ }),
    {
        self.state = FrameState::InProgress;
    }

    /// Queues one text draw for the end of the current frame; nothing is
    /// rasterized yet.
    pub fn draw_text(&mut self, text: String, position: Point2D, color: Color, scale: i64)
        ensures
            final(self)@ == (RendererView {
                text_queue: old(self)@.text_queue.push(
                    QueuedText { text, position, color, scale },
                ),
                ..old(self)@
            }),
    {
        self.text_queue.push(QueuedText { text, position, color, scale });
    }

    /// Closes the frame and returns the plan the GPU side executes: flush
    /// each arena (triangles first, then lines), draw the triangle pass,
    /// the line pass only if that arena holds anything, then the queued
    /// text, which leaves the queue. Returns `None`, changing nothing,
    /// when no frame is in progress.
    pub fn render_finish(&mut self) -> (r: Option<FramePlan>)
        requires
            old(self)@.wf(),
        ensures
            final(self)@.wf(),
            final(self)@.state == FrameState::Idle,
            old(self)@.state == FrameState::Idle ==> r is None && *final(self) == *old(self),
            old(self)@.state == FrameState::InProgress ==> r is Some && {
                let plan = r->Some_0;
                &&& plan.upload_triangles == (!old(self)@.triangles.is_empty() && old(
                    self,
                )@.triangles.dirty)
                &&& plan.upload_lines == (!old(self)@.lines.is_empty() && old(self)@.lines.dirty)
                &&& plan.triangles_index_count == old(self)@.triangles.indices_allocated
                &&& plan.draw_lines == !old(self)@.lines.is_empty()
                &&& plan.lines_index_count == old(self)@.lines.indices_allocated
                &&& plan.text@ == old(self)@.text_queue
                &&& final(self)@.triangles == if plan.upload_triangles {
                    DualBufferView { dirty: false, ..old(self)@.triangles }
                } else {
                    old(self)@.triangles
                }
                &&& final(self)@.lines == if plan.upload_lines {
                    DualBufferView { dirty: false, ..old(self)@.lines }
                } else {
                    old(self)@.lines
                }
                &&& final(self)@.width == old(self)@.width
                &&& final(self)@.height == old(self)@.height
                &&& final(self)@.text_queue.len() == 0
            },
    {
        match self.state {
            FrameState::Idle => None,
            FrameState::InProgress => {
                let upload_triangles = self.triangles_buffer.write_buffer();
                let upload_lines = self.lines_buffer.write_buffer();
                let triangles_index_count = self.triangles_buffer.indices_len();
                let draw_lines = !self.lines_buffer.is_empty();
                let lines_index_count = self.lines_buffer.indices_len();
                let mut text: Vec<QueuedText> = Vec::new();
                std::mem::swap(&mut text, &mut self.text_queue);
                self.state = FrameState::Idle;
                Some(
                    FramePlan {
                        upload_triangles,
                        upload_lines,
                        triangles_index_count,
                        draw_lines,
                        lines_index_count,
                        text,
                    },
                )
            },
        }
    }
}

} // verus!
