//! The shader pipeline: the one compiled resource that is active, replaced
//! only by a later compile that succeeded.
//!
//! The pipeline does not compile. The host reads the file and runs the
//! compiler; what came of it arrives as an [`Attempt`]. The resource type `R`
//! is whatever the host's compiler produces.

use vstd::prelude::*;
use vstd::string::*;

verus! {

/// What the host brings back from one try at reading and compiling the file.
pub enum Attempt<R> {
    /// The file could not be read; the compiler was not run.
    Unreadable,
    /// The file was read and handed to the compiler: the resource, or the
    /// compiler's diagnostic.
    Read(Result<R, String>),
}

/// What an [`Attempt`] stands for in contracts.
pub enum AttemptView<R> {
    Unreadable,
    Read(Result<R, Seq<char>>),
}

/// The compiler's verdict with its diagnostic as characters.
pub open spec fn compiled_view<R>(compiled: Result<R, String>) -> Result<R, Seq<char>> {
    match compiled {
        Ok(resource) => Ok(resource),
        Err(diagnostic) => Err(diagnostic@),
    }
}

impl<R> View for Attempt<R> {
    type V = AttemptView<R>;

    open spec fn view(&self) -> AttemptView<R> {
        match *self {
            Attempt::Unreadable => AttemptView::Unreadable,
            Attempt::Read(compiled) => AttemptView::Read(compiled_view(compiled)),
        }
    }
}

impl<R> AttemptView<R> {
    /// Whether the attempt produced a resource.
    pub open spec fn succeeded(self) -> bool {
        self matches AttemptView::Read(Ok(_))
    }
}

/// Why a reload left the pipeline as it was.
#[derive(Debug, PartialEq, Eq)]
pub enum ReloadError {
    /// The file could not be read.
    Read,
    /// The compiler rejected the source; its diagnostic, word for word.
    Compile(String),
}

/// What a [`ReloadError`] stands for in contracts.
pub enum ReloadErrorView {
    Read,
    Compile(Seq<char>),
}

impl View for ReloadError {
    type V = ReloadErrorView;

    open spec fn view(&self) -> ReloadErrorView {
        match *self {
            ReloadError::Read => ReloadErrorView::Read,
            ReloadError::Compile(diagnostic) => ReloadErrorView::Compile(diagnostic@),
        }
    }
}

/// The active resource and the handle it was loaded under.
pub struct Loaded<R> {
    pub resource: R,
    pub handle: Seq<char>,
}

/// The pipeline after a load under `handle`: a compiled resource takes the
/// place of the active one, a diagnostic changes nothing.
pub open spec fn load_step<R>(
    active: Option<Loaded<R>>,
    handle: Seq<char>,
    compiled: Result<R, Seq<char>>,
) -> Option<Loaded<R>> {
    match compiled {
        Ok(resource) => Some(Loaded { resource, handle }),
        Err(_) => active,
    }
}

/// What a load under `handle` returns: the handle, now that of the active
/// resource, or the diagnostic.
pub open spec fn load_result<R>(handle: Seq<char>, compiled: Result<R, Seq<char>>) -> Result<
    Seq<char>,
    Seq<char>,
> {
    match compiled {
        Ok(_) => Ok(handle),
        Err(diagnostic) => Err(diagnostic),
    }
}

/// The pipeline after a reload under `handle`.
pub open spec fn reload_step<R>(
    active: Option<Loaded<R>>,
    handle: Seq<char>,
    attempt: AttemptView<R>,
) -> Option<Loaded<R>> {
    match attempt {
        AttemptView::Unreadable => active,
        AttemptView::Read(compiled) => load_step(active, handle, compiled),
    }
}

/// What a reload under `handle` returns.
pub open spec fn reload_result<R>(handle: Seq<char>, attempt: AttemptView<R>) -> Result<
    Seq<char>,
    ReloadErrorView,
> {
    match attempt {
        AttemptView::Unreadable => Err(ReloadErrorView::Read),
        AttemptView::Read(Ok(_)) => Ok(handle),
        AttemptView::Read(Err(diagnostic)) => Err(ReloadErrorView::Compile(diagnostic)),
    }
}

/// What a load returned, as characters.
pub open spec fn text_result_view(result: Result<String, String>) -> Result<Seq<char>, Seq<char>> {
    match result {
        Ok(handle) => Ok(handle@),
        Err(diagnostic) => Err(diagnostic@),
    }
}

/// What a reload returned, as characters.
pub open spec fn reload_result_view(result: Result<String, ReloadError>) -> Result<
    Seq<char>,
    ReloadErrorView,
> {
    match result {
        Ok(handle) => Ok(handle@),
        Err(error) => Err(error@),
    }
}

/// Holds at most one compiled resource. Empty when made; filled by the first
/// load that succeeds; after that only a load that succeeds changes it.
pub struct ShaderPipeline<R> {
    active: Option<(R, String)>,
}

impl<R> View for ShaderPipeline<R> {
    type V = Option<Loaded<R>>;

    closed spec fn view(&self) -> Option<Loaded<R>> {
        match self.active {
            Some((resource, handle)) => Some(Loaded { resource, handle: handle@ }),
            None => None,
        }
    }
}

impl<R> ShaderPipeline<R> {
    /// A pipeline with no active resource.
    pub fn new() -> (pipeline: ShaderPipeline<R>)
        ensures
            pipeline@ is None,
    {
        ShaderPipeline { active: None }
    }

    /// Takes the compiler's verdict on the source of the file shown as
    /// `handle`. A resource becomes the active one and the handle is returned.
    /// A diagnostic is returned as it came and the active resource stays.
    pub fn load(&mut self, handle: &str, compiled: Result<R, String>) -> (result: Result<
        String,
        String,
    >)
        ensures
            final(self)@ == load_step(old(self)@, handle@, compiled_view(compiled)),
            text_result_view(result) == load_result(handle@, compiled_view(compiled)),
            compiled is Err ==> final(self)@ == old(self)@,
    {
        match compiled {
            Ok(resource) => {
                self.active = Some((resource, String::from_str(handle)));
                Ok(String::from_str(handle))
            },
            Err(diagnostic) => Err(diagnostic),
        }
    }

    /// Read, then load: an unreadable file fails before the compiler is asked;
    /// otherwise this is [`ShaderPipeline::load`]. The two failures come back
    /// as different errors, and neither touches the active resource.
    pub fn reload(&mut self, handle: &str, attempt: Attempt<R>) -> (result: Result<
        String,
        ReloadError,
    >)
        ensures
            final(self)@ == reload_step(old(self)@, handle@, attempt@),
            reload_result_view(result) == reload_result(handle@, attempt@),
            !attempt@.succeeded() ==> final(self)@ == old(self)@,
    {
        match attempt {
            Attempt::Unreadable => Err(ReloadError::Read),
            Attempt::Read(compiled) => match self.load(handle, compiled) {
                Ok(handle) => Ok(handle),
                Err(diagnostic) => Err(ReloadError::Compile(diagnostic)),
            },
        }
    }

    /// The active resource, if any.
    pub fn resource(&self) -> (resource: Option<&R>)
        ensures
            match resource {
                Some(r) => self@ matches Some(loaded) && loaded.resource == *r,
                None => self@ is None,
            },
    {
        match &self.active {
            Some((resource, _)) => Some(resource),
            None => None,
        }
    }

    /// The handle of the active resource, if any.
    pub fn handle(&self) -> (handle: Option<&str>)
        ensures
            match handle {
                Some(h) => self@ matches Some(loaded) && loaded.handle == h@,
                None => self@ is None,
            },
    {
        match &self.active {
            Some((_, handle)) => Some(handle.as_str()),
            None => None,
        }
    }

    /// Whether a resource is active.
    pub fn is_active(&self) -> (active: bool)
        ensures
            active == self@.is_some(),
    {
        self.active.is_some()
    }
}

} // verus!
