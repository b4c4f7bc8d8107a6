//! The session: a parser and a screen, driven together by the host.

use vstd::prelude::*;

use crate::buffer::{replies_view, ResizeError, TerminalBuffer};
use crate::command::{commands_view, Command};
use crate::parser::AnsiParser;
use crate::renderer::{RenderContext, RenderError, Renderer};
use crate::screen::ScreenView;

verus! {

/// A terminal: bytes from the child go in, and the screen they describe can
/// be read and drawn.
pub struct TerminalEngine {
    buffer: TerminalBuffer,
    parser: AnsiParser,
    renderer: Box<dyn Renderer>,
    width: usize,
    height: usize,
}

/// Executes commands on a screen, in order.
pub fn execute_all(buffer: &mut TerminalBuffer, commands: Vec<Command>)
    requires
        old(buffer).wf(),
    ensures
        final(buffer).wf(),
        final(buffer)@ == old(buffer)@.run(commands_view(commands@)),
{
    let ghost all = commands_view(commands@);
    let mut commands = commands;
    let count = commands.len();
    let mut i: usize = 0;
    while i < count
        invariant
            buffer.wf(),
            i <= count,
            commands.len() == count,
            all.len() == count,
            forall|k: int| i <= k < count ==> (#[trigger] commands@[k])@ == all[k],
            buffer@ == old(buffer)@.run(all.take(i as int)),
        decreases count - i,
    {
        let mut cmd = Command::Bell;
        std::mem::swap(&mut cmd, &mut commands[i]);
        proof {
            assert(all.take(i + 1) =~= all.take(i as int).push(all[i as int]));
            crate::laws::lemma_run_push(old(buffer)@, all.take(i as int), all[i as int]);
        }
        buffer.execute_command(cmd);
        i += 1;
    }
    assert(all.take(count as int) =~= all);
}

impl TerminalEngine {
    /// The state of the screen.
    pub closed spec fn screen(&self) -> ScreenView {
        self.buffer@
    }

    /// The parser as it stands between two calls of `write`.
    pub closed spec fn parser(&self) -> AnsiParser {
        self.parser
    }

    /// What holds of every engine: its screen is well-formed and has the
    /// size the engine was last given.
    pub closed spec fn wf(&self) -> bool {
        &&& self.buffer.wf()
        &&& self.buffer@.grid.width == self.width
        &&& self.buffer@.grid.height == self.height
    }

    /// The screen of a well-formed engine is well-formed.
    pub proof fn lemma_screen_wf(&self)
        requires
            self.wf(),
        ensures
            self.screen().wf(),
    {
        self.buffer.lemma_view_wf();
    }

    /// An engine with a blank screen of the given size.
    pub fn new(width: usize, height: usize, renderer: Box<dyn Renderer>) -> (engine: Self)
        requires
            width >= 1,
            height >= 1,
            width * height <= usize::MAX,
        ensures
            engine.wf(),
            engine.screen() == ScreenView::initial(width as int, height as int),
            engine.parser().style() == crate::cell::default_style(),
            engine.parser().link_serial() == 0,
    {
        TerminalEngine {
            buffer: TerminalBuffer::new(width, height),
            parser: AnsiParser::new(),
            renderer,
            width,
            height,
        }
    }

    /// Takes bytes from the child: decodes them and executes each command
    /// on the screen, in the order of the bytes.
    pub fn write(&mut self, data: &[u8])
        requires
            old(self).wf(),
        ensures
            final(self).wf(),
            final(self).screen() == old(self).screen().run(
                old(self).parser().decoded(data@).commands,
            ),
            final(self).parser().style() == old(self).parser().decoded(data@).style,
            final(self).parser().link_serial() == old(self).parser().decoded(data@).link_serial,
    {
        let commands = self.parser.parse(data);
        proof {
            self.buffer.lemma_view_wf();
        }
        execute_all(&mut self.buffer, commands);
        proof {
            crate::invariants::lemma_run_wf(
                old(self).buffer@,
                old(self).parser().decoded(data@).commands,
            );
        }
    }

    /// What the renderer is given to draw: the screen, in its full size.
    pub fn context(&self) -> (context: RenderContext<'_>)
        requires
            self.wf(),
        ensures
            context.buffer.wf(),
            context.buffer@ == self.screen(),
            context.width == self.screen().grid.width,
            context.height == self.screen().grid.height,
    {
        RenderContext { buffer: &self.buffer, width: self.width, height: self.height }
    }

    /// Has the renderer draw the screen. What comes back is the renderer's
    /// word; the screen is as it was.
    pub fn render(&mut self) -> (r: Result<(), RenderError>)
        requires
            old(self).wf(),
        ensures
            final(self).wf(),
            final(self).screen() == old(self).screen(),
            final(self).parser() == old(self).parser(),
    {
        let context = RenderContext {
            buffer: &self.buffer,
            width: self.width,
            height: self.height,
        };
        self.renderer.render(&context)
    }

    /// Brings the screen to a new size. A screen of no columns or no rows is
    /// refused, and nothing changes.
    pub fn resize(&mut self, width: usize, height: usize) -> (r: Result<(), ResizeError>)
        requires
            old(self).wf(),
            width * height <= usize::MAX,
        ensures
            final(self).wf(),
            final(self).parser() == old(self).parser(),
            width == 0 || height == 0 ==> r == Err::<(), ResizeError>(ResizeError::Empty)
                && final(self).screen() == old(self).screen(),
            width >= 1 && height >= 1 ==> r is Ok && final(self).screen() == old(
                self,
            ).screen().resized(width as int, height as int),
    {
        match self.buffer.resize(width, height) {
            Ok(()) => {
                self.width = width;
                self.height = height;
                Ok(())
            },
            Err(e) => Err(e),
        }
    }

    /// The screen, for reading.
    pub fn buffer(&self) -> (buffer: &TerminalBuffer)
        requires
            self.wf(),
        ensures
            buffer.wf(),
            buffer@ == self.screen(),
    {
        &self.buffer
    }

    /// Marks every row of the screen clean: what the host calls once it has
    /// drawn a frame.
    pub fn clear_dirty(&mut self)
        requires
            old(self).wf(),
        ensures
            final(self).wf(),
            final(self).parser() == old(self).parser(),
            final(self).screen() == (ScreenView {
                grid: old(self).screen().grid.all_clean(),
                ..old(self).screen()
            }),
    {
        self.buffer.clear_dirty();
    }

    /// Hands out the replies that are waiting to be sent to the child, oldest
    /// first, and leaves none waiting.
    pub fn drain_responses(&mut self) -> (replies: Vec<Vec<u8>>)
        requires
            old(self).wf(),
        ensures
            final(self).wf(),
            final(self).parser() == old(self).parser(),
            replies_view(replies@) == old(self).screen().responses,
            final(self).screen() == (ScreenView { responses: Seq::empty(), ..old(self).screen() }),
    {
        self.buffer.drain_responses()
    }

    /// Puts the screen back into the state a new engine of this size starts
    /// with. The parser is left as it is.
    pub fn clear(&mut self)
        requires
            old(self).wf(),
        ensures
            final(self).wf(),
            final(self).parser() == old(self).parser(),
            final(self).screen() == ScreenView::initial(
                old(self).screen().grid.width,
                old(self).screen().grid.height,
            ),
    {
        proof {
            self.buffer.lemma_view_wf();
            self.buffer.lemma_size_fits();
        }
        self.buffer = TerminalBuffer::new(self.width, self.height);
    }
}

} // verus!
