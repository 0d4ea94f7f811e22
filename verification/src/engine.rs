//! Configuration of an engine: what a harness needs to know before it opens
//! a window and starts to draw.

use crate::pixel::PixelWindow;
use vstd::prelude::*;

verus! {

/// The kind of engine that a builder leads to.
enum BuilderOutput {
    /// An engine whose draw routine sees only the view.
    Stateless,
    /// An engine that keeps a state beside the view.
    Statefull,
    /// An engine with a state and a routine that updates it. A builder takes
    /// no such routine, so none leads here.
    StatefullUpdate,
}

/// The settings of an engine as contracts see them: the view of a builder
/// and of the engines it builds. An engine without a state has `None` there.
pub struct Config<D, S> {
    pub title: Seq<char>,
    pub width: u32,
    pub height: u32,
    pub state: Option<S>,
    pub draw_fn: D,
}

/// Collects the settings of an engine: a title, the size of the pixel grid,
/// the draw routine, and optionally a state for the draw routine to read.
pub struct EngineBuilder<D, S> where S: Sized, D: Fn(&mut PixelWindow) + 'static {
    title: String,
    width: u32,
    height: u32,
    state: Option<S>,
    draw_fn: D,
}

impl<D, S> View for EngineBuilder<D, S> where S: Sized, D: Fn(&mut PixelWindow) + 'static {
    type V = Config<D, S>;

    closed spec fn view(&self) -> Config<D, S> {
        Config {
            title: self.title@,
            width: self.width,
            height: self.height,
            state: self.state,
            draw_fn: self.draw_fn,
        }
    }
}

impl<D, S> EngineBuilder<D, S> where S: Sized + 'static, D: Fn(&mut PixelWindow) + 'static {
    /// A builder with the default title, a grid of 160 by 144 pixels and no
    /// state.
    pub fn new(draw_fn: D) -> (builder: Self)
        ensures
            builder@ == (Config {
                title: "Pixen"@,
                width: 160,
                height: 144,
                state: None::<S>,
                draw_fn,
            }),
    {
        EngineBuilder { title: "Pixen".to_string(), width: 160, height: 144, state: None, draw_fn }
    }

    /// Replaces the title.
    pub fn with_title(self, title: &str) -> (builder: Self)
        ensures
            builder@ == (Config { title: title@, ..self@ }),
    {
        let mut builder = self;
        builder.title = title.to_owned();
        builder
    }

    /// Replaces the width of the pixel grid.
    pub fn with_width(self, width: u32) -> (builder: Self)
        ensures
            builder@ == (Config { width, ..self@ }),
    {
        let mut builder = self;
        builder.width = width;
        builder
    }

    /// Replaces the height of the pixel grid.
    pub fn with_height(self, height: u32) -> (builder: Self)
        ensures
            builder@ == (Config { height, ..self@ }),
    {
        let mut builder = self;
        builder.height = height;
        builder
    }

    /// Gives the engine a state.
    pub fn with_state(self, state: S) -> (builder: Self)
        ensures
            builder@ == (Config { state: Some(state), ..self@ }),
    {
        let mut builder = self;
        builder.state = Some(state);
        builder
    }

    fn output_type(&self) -> (output: BuilderOutput)
        ensures
            self@.state is Some ==> output is Statefull,
            self@.state is None ==> output is Stateless,
    {
        if self.state.is_some() {
            BuilderOutput::Statefull
        } else {
            BuilderOutput::Stateless
        }
    }

    /// The engine that the settings describe: one with a state if a state
    /// was given, one without if not. Title, size and draw routine pass on
    /// unchanged.
    pub fn build(self) -> (engine: Engine<D, S>)
        ensures
            match self@.state {
                Some(state) => engine matches Engine::Statefull(e) && e@ == (Config {
                    state: Some(state),
                    ..self@
                }),
                None => engine matches Engine::Stateless(e) && e@ == (Config {
                    state: None::<()>,
                    title: self@.title,
                    width: self@.width,
                    height: self@.height,
                    draw_fn: self@.draw_fn,
                }),
            },
    {
        match self.output_type() {
            BuilderOutput::Stateless => Engine::Stateless(
                StatelessEngine {
                    title: self.title,
                    width: self.width,
                    height: self.height,
                    draw_fn: self.draw_fn,
                },
            ),
            BuilderOutput::Statefull => Engine::Statefull(
                StatefullEngine {
                    title: self.title,
                    width: self.width,
                    height: self.height,
                    state: self.state.unwrap(),
                    draw_fn: self.draw_fn,
                },
            ),
            BuilderOutput::StatefullUpdate => vstd::pervasive::unreached(),
        }
    }
}

/// Something that opens its window and runs until it is told to stop. The
/// harness that drives the window system implements this for the engines it
/// can run.
pub trait PixenEngine {
    fn run(&mut self);
}

/// What `EngineBuilder::build` gives: an engine of one of the two kinds.
pub enum Engine<D, S> where S: Sized, D: Fn(&mut PixelWindow) + 'static {
    Stateless(StatelessEngine<D>),
    Statefull(StatefullEngine<D, S>),
}

/// The settings of an engine whose draw routine sees only the view.
pub struct StatelessEngine<D> where D: Fn(&mut PixelWindow) + 'static {
    title: String,
    width: u32,
    height: u32,
    draw_fn: D,
}

impl<D> View for StatelessEngine<D> where D: Fn(&mut PixelWindow) + 'static {
    type V = Config<D, ()>;

    closed spec fn view(&self) -> Config<D, ()> {
        Config {
            title: self.title@,
            width: self.width,
            height: self.height,
            state: None,
            draw_fn: self.draw_fn,
        }
    }
}

impl<D> StatelessEngine<D> where D: Fn(&mut PixelWindow) + 'static {
    /// The title of the window.
    pub fn title(&self) -> (title: &str)
        ensures
            title@ == self@.title,
    {
        self.title.as_str()
    }

    /// The width of the pixel grid.
    pub fn width(&self) -> (width: u32)
        ensures
            width == self@.width,
    {
        self.width
    }

    /// The height of the pixel grid.
    pub fn height(&self) -> (height: u32)
        ensures
            height == self@.height,
    {
        self.height
    }

    /// The draw routine.
    pub fn draw_fn(&self) -> (draw_fn: &D)
        ensures
            *draw_fn == self@.draw_fn,
    {
        &self.draw_fn
    }
}

/// The settings of an engine that keeps a state beside the view.
pub struct StatefullEngine<D, S> where S: Sized, D: Fn(&mut PixelWindow) + 'static {
    title: String,
    width: u32,
    height: u32,
    state: S,
    draw_fn: D,
}

impl<D, S> View for StatefullEngine<D, S> where S: Sized, D: Fn(&mut PixelWindow) + 'static {
    type V = Config<D, S>;

    closed spec fn view(&self) -> Config<D, S> {
        Config {
            title: self.title@,
            width: self.width,
            height: self.height,
            state: Some(self.state),
            draw_fn: self.draw_fn,
        }
    }
}

impl<D, S> StatefullEngine<D, S> where S: Sized, D: Fn(&mut PixelWindow) + 'static {
    /// The title of the window.
    pub fn title(&self) -> (title: &str)
        ensures
            title@ == self@.title,
    {
        self.title.as_str()
    }

    /// The width of the pixel grid.
    pub fn width(&self) -> (width: u32)
        ensures
            width == self@.width,
    {
        self.width
    }

    /// The height of the pixel grid.
    pub fn height(&self) -> (height: u32)
        ensures
            height == self@.height,
    {
        self.height
    }

    /// The state.
    pub fn state(&self) -> (state: &S)
        ensures
            self@.state == Some(*state),
    {
        &self.state
    }

    /// The draw routine.
    pub fn draw_fn(&self) -> (draw_fn: &D)
        ensures
            *draw_fn == self@.draw_fn,
    {
        &self.draw_fn
    }
}

} // verus!
