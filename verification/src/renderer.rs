//! What draws a screen. The engine knows a renderer only by the `Renderer`
//! trait; the host brings its own.

use vstd::prelude::*;

use crate::buffer::TerminalBuffer;
use crate::screen::ScreenView;

verus! {

/// What a renderer is given to draw: the screen, and how much of it.
pub struct RenderContext<'a> {
    pub buffer: &'a TerminalBuffer,
    pub width: usize,
    pub height: usize,
}

/// Why a frame could not be drawn.
#[derive(Debug, Clone, PartialEq, Eq)]
pub struct RenderError {
    pub message: String,
}

/// Draws frames. A renderer may keep state of its own between frames. It is
/// only ever handed a well-formed screen.
pub trait Renderer {
    fn render(&mut self, context: &RenderContext) -> Result<(), RenderError>
        requires
            context.buffer.wf(),
    ;
}

/// A renderer that walks the rows of the screen and draws nothing: the
/// stand-in where no display is attached.
pub struct ScreenRenderer {
    dirty: bool,
}

impl ScreenRenderer {
    /// A renderer that has a first frame to draw.
    pub fn new() -> (renderer: Self)
        ensures
            renderer.is_dirty(),
    {
        ScreenRenderer { dirty: true }
    }

    /// Whether the next call of `render` has anything to do.
    pub closed spec fn is_dirty(&self) -> bool {
        self.dirty
    }

    /// The number of rows among the first `height` that the screen has.
    pub open spec fn rows_in_view(screen: ScreenView, height: usize) -> int {
        if height <= screen.grid.height {
            height as int
        } else {
            screen.grid.height
        }
    }

    /// Walks the rows that are in view and says how many there were.
    pub fn visit_rows(&self, context: &RenderContext) -> (visited: usize)
        requires
            context.buffer.wf(),
        ensures
            visited == Self::rows_in_view(context.buffer@, context.height),
    {
        let grid = context.buffer.grid();
        let rows = grid.height();
        let mut visited: usize = 0;
        let mut y: usize = 0;
        while y < context.height
            invariant
                grid.wf(),
                rows == grid@.height,
                y <= context.height,
                visited == vstd::math::min(y as int, grid@.height),
            decreases context.height - y,
        {
            match grid.row(y) {
                Some(_cells) => {
                    visited += 1;
                },
                None => {},
            }
            y += 1;
        }
        visited
    }
}

impl Default for ScreenRenderer {
    fn default() -> (renderer: Self)
        ensures
            renderer.is_dirty(),
    {
        Self::new()
    }
}

impl Renderer for ScreenRenderer {
    /// Draws the frame if there is one to draw. Never fails.
    fn render(&mut self, context: &RenderContext) -> (r: Result<(), RenderError>)
        ensures
            r is Ok,
            !final(self).is_dirty(),
    {
        if !self.dirty {
            return Ok(());
        }
        let _visited = self.visit_rows(context);
        self.dirty = false;
        Ok(())
    }
}

} // verus!
