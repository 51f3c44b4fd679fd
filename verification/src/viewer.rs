//! The viewer: one watched file, one pipeline, one log, and the rules that tie
//! them together.
//!
//! The viewer never touches the outside world. Each entry point takes what the
//! host observed (an input event, a stat of the watched path, the result of
//! reading and compiling it), moves to the next state, and answers with what
//! the host has to do: an [`Action`] to perform, a [`Report`] to show, a
//! [`Frame`] to draw.

use crate::file::{changed, File, FileView, Timestamp};
use crate::log::{lists, LogView, MessageLog, LOG_SIZE};
use crate::message::{Msg, MsgView, Stream};
use crate::pipeline::{reload_step, Attempt, AttemptView, Loaded, ReloadError, ShaderPipeline};
use vstd::prelude::*;
use vstd::string::*;

verus! {

/// The keys the viewer reacts to; every other key is `Other`.
#[derive(Clone, Copy, Debug, PartialEq, Eq, Structural)]
pub enum Key {
    Esc,
    R,
    L,
    C,
    Q,
    F,
    Other,
}

/// An input event, as far as the viewer reads it.
#[derive(Debug)]
pub enum Event {
    /// A file was dropped on the window; the host has taken its first stat.
    FileDrop(File),
    KeyPress(Key),
    /// Any other event.
    Other,
}

/// What an [`Event`] stands for in contracts.
pub enum EventView {
    FileDrop(FileView),
    KeyPress(Key),
    Other,
}

impl View for Event {
    type V = EventView;

    open spec fn view(&self) -> EventView {
        match *self {
            Event::FileDrop(file) => EventView::FileDrop(file@),
            Event::KeyPress(key) => EventView::KeyPress(key),
            Event::Other => EventView::Other,
        }
    }
}

/// What the host does next.
#[derive(Clone, Copy, Debug, PartialEq, Eq, Structural)]
pub enum Action {
    /// Nothing.
    Idle,
    /// Read the watched path, compile what was read, and hand the
    /// [`Attempt`] to [`Viewer::refresh`].
    Reload,
    /// End the process.
    Quit,
    /// Switch the window between fullscreen and windowed.
    ToggleFullscreen,
}

/// What a reload gave the host to show.
#[derive(Debug)]
pub struct Report {
    /// The new window title, if the title changes.
    pub title: Option<String>,
    /// The message that went into the log, to be echoed on the stream of its
    /// severity.
    pub message: Option<Msg>,
}

/// What a [`Report`] stands for in contracts.
pub struct ReportView {
    pub title: Option<Seq<char>>,
    pub message: Option<MsgView>,
}

impl View for Report {
    type V = ReportView;

    open spec fn view(&self) -> ReportView {
        ReportView {
            title: match self.title {
                Some(title) => Some(title@),
                None => None,
            },
            message: match self.message {
                Some(message) => Some(message@),
                None => None,
            },
        }
    }
}

/// The instructions shown while no shader is active.
pub open spec fn placeholder() -> Seq<char> {
    "drop fragment shader files into this window"@
}

/// What fills the window.
pub enum Scene<'a, R> {
    /// A quad over the whole window, rendered with the active shader.
    Shader(&'a R),
    /// A line of instructions.
    Text(&'static str),
}

/// One frame: the scene, and over it the log entries to draw, the most recent
/// first, each with its age rank. The overlay is empty while the log is hidden.
pub struct Frame<'a, R> {
    pub scene: Scene<'a, R>,
    pub overlay: Vec<(usize, &'a Msg)>,
}

/// What a [`Viewer`] stands for in contracts.
pub struct ViewerView<R> {
    pub file: Option<FileView>,
    pub shader: Option<Loaded<R>>,
    pub log: LogView,
}

/// The log entry that reports `attempt` on `file`.
pub open spec fn outcome_message<R>(file: FileView, attempt: AttemptView<R>) -> MsgView {
    match attempt {
        AttemptView::Unreadable => MsgView::failure("failed to read "@ + file.path),
        AttemptView::Read(Err(diagnostic)) => MsgView::failure(diagnostic),
        AttemptView::Read(Ok(_)) => MsgView::success(file.handle + " loaded"@),
    }
}

/// The view of an optional file.
pub open spec fn watched(file: Option<File>) -> Option<FileView> {
    match file {
        Some(file) => Some(file@),
        None => None,
    }
}

/// The state the viewer starts in: `argument` is opened if it was found on
/// disk.
pub open spec fn init_state<R>(argument: Option<FileView>, found: bool) -> ViewerView<R> {
    match argument {
        Some(file) if found => ViewerView::initial().open(file),
        _ => ViewerView::initial(),
    }
}

/// What the viewer asks of the host at the start: a reload if it opened
/// `argument`.
pub open spec fn init_action(argument: Option<FileView>, found: bool) -> Action {
    match argument {
        Some(_) if found => Action::Reload,
        _ => Action::Idle,
    }
}

impl<R> ViewerView<R> {
    /// Holds of every state the viewer reaches: a shader is active only once
    /// a file has been opened, and the log is within its bound.
    pub open spec fn wf(self) -> bool {
        &&& self.shader is Some ==> self.file is Some
        &&& self.log.wf()
    }

    /// No file, no shader, an empty hidden log.
    pub open spec fn initial() -> ViewerView<R> {
        ViewerView { file: None, shader: None, log: LogView::empty(LOG_SIZE as nat) }
    }

    /// `file` takes the place of the watched file, if there was one.
    pub open spec fn open(self, file: FileView) -> ViewerView<R> {
        ViewerView { file: Some(file), ..self }
    }

    /// The state after `msg` was recorded in the log.
    pub open spec fn log(self, msg: MsgView) -> ViewerView<R> {
        ViewerView { log: self.log.record(msg), ..self }
    }

    /// The state after a reload came back as `attempt`. With no file open
    /// nothing happens. Otherwise the outcome is logged, and a compiled
    /// resource becomes the active one.
    pub open spec fn refresh(self, attempt: AttemptView<R>) -> ViewerView<R> {
        match self.file {
            None => self,
            Some(file) => ViewerView {
                file: self.file,
                shader: reload_step(self.shader, file.handle, attempt),
                log: self.log.record(outcome_message(file, attempt)),
            },
        }
    }

    /// What the host is given to show after a reload came back as `attempt`.
    pub open spec fn report(self, attempt: AttemptView<R>) -> ReportView {
        match self.file {
            None => ReportView { title: None, message: None },
            Some(file) => ReportView {
                title: if attempt.succeeded() {
                    Some(file.handle)
                } else {
                    None
                },
                message: Some(outcome_message(file, attempt)),
            },
        }
    }

    /// The state after several reloads, first to last.
    pub open spec fn refresh_all(self, attempts: Seq<AttemptView<R>>) -> ViewerView<R>
        decreases attempts.len(),
    {
        if attempts.len() == 0 {
            self
        } else {
            self.refresh_all(attempts.drop_last()).refresh(attempts.last())
        }
    }

    /// The log entries to draw over the scene: all of them by age while the
    /// log is visible, none while it is hidden.
    pub open spec fn overlay(self) -> Seq<(nat, MsgView)> {
        if self.log.visible {
            self.log.by_age()
        } else {
            Seq::empty()
        }
    }

    /// The state after the per-frame poll saw `observed` on the watched path.
    pub open spec fn update(self, observed: Option<Timestamp>) -> ViewerView<R> {
        match self.file {
            None => self,
            Some(file) => ViewerView { file: Some(file.observe(observed)), ..self },
        }
    }

    /// A poll asks for a reload exactly when a file is watched and the
    /// observation differs from the one before.
    pub open spec fn update_action(self, observed: Option<Timestamp>) -> Action {
        match self.file {
            Some(file) if changed(file.last_modified, observed) => Action::Reload,
            _ => Action::Idle,
        }
    }

    /// The state after an input event; `meta` says whether the quit modifier
    /// is held.
    pub open spec fn event(self, event: EventView, meta: bool) -> ViewerView<R> {
        match event {
            EventView::FileDrop(file) => self.open(file),
            EventView::KeyPress(Key::L) => ViewerView {
                log: self.log.toggle_visibility(),
                ..self
            },
            EventView::KeyPress(Key::C) => ViewerView { log: self.log.clear(), ..self },
            _ => self,
        }
    }

    /// What an input event asks of the host.
    pub open spec fn event_action(self, event: EventView, meta: bool) -> Action {
        match event {
            EventView::FileDrop(_) => Action::Reload,
            EventView::KeyPress(Key::Esc) => Action::Quit,
            EventView::KeyPress(Key::R) => if self.file is Some {
                Action::Reload
            } else {
                Action::Idle
            },
            EventView::KeyPress(Key::Q) => if meta {
                Action::Quit
            } else {
                Action::Idle
            },
            EventView::KeyPress(Key::F) => if meta {
                Action::ToggleFullscreen
            } else {
                Action::Idle
            },
            _ => Action::Idle,
        }
    }
}

/// The hot-reload state machine.
pub struct Viewer<R> {
    file: Option<File>,
    pipeline: ShaderPipeline<R>,
    log: MessageLog,
}

impl<R> View for Viewer<R> {
    type V = ViewerView<R>;

    closed spec fn view(&self) -> ViewerView<R> {
        ViewerView {
            file: watched(self.file),
            shader: self.pipeline@,
            log: self.log@,
        }
    }
}

impl<R> Viewer<R> {
    /// A viewer with no file, no shader and an empty hidden log.
    pub fn new() -> (viewer: Viewer<R>)
        ensures
            viewer@ == ViewerView::<R>::initial(),
    {
        Viewer { file: None, pipeline: ShaderPipeline::new(), log: MessageLog::new() }
    }

    /// Starts the viewer. `argument` is the file named on the command line, if
    /// one was, and `found` says whether its path exists; the file is opened
    /// only if it does.
    pub fn init(argument: Option<File>, found: bool) -> (start: (Viewer<R>, Action))
        ensures
            start.0@ == init_state::<R>(watched(argument), found),
            start.1 == init_action(watched(argument), found),
    {
        let mut viewer = Viewer::new();
        let mut action = Action::Idle;
        if let Some(file) = argument {
            if found {
                action = viewer.open(file);
            }
        }
        (viewer, action)
    }

    /// Watches `file` from now on, in place of any file watched before, and
    /// asks for the reload that every opening starts with.
    pub fn open(&mut self, file: File) -> (action: Action)
        ensures
            final(self)@ == old(self)@.open(file@),
            action == Action::Reload,
    {
        self.file = Some(file);
        Action::Reload
    }

    /// Records `msg` in the log, which becomes visible, and says on which
    /// stream the host echoes it.
    pub fn log(&mut self, msg: Msg) -> (stream: Stream)
        ensures
            final(self)@ == old(self)@.log(msg@),
            stream == msg@.ty.spec_stream(),
    {
        let stream = msg.ty().stream();
        self.log.record(msg);
        stream
    }

    /// Takes in the result of one reload of the watched file. An unreadable
    /// file and a compiler diagnostic are each logged as a failure and leave
    /// the active shader alone; a compiled resource becomes the active shader,
    /// is logged as a success, and gives the window its title. With no file
    /// open the attempt is dropped.
    pub fn refresh(&mut self, attempt: Attempt<R>) -> (report: Report)
        ensures
            final(self)@ == old(self)@.refresh(attempt@),
            report@ == old(self)@.report(attempt@),
            !attempt@.succeeded() ==> final(self)@.shader == old(self)@.shader,
    {
        let (title, msg) = match &self.file {
            None => {
                return Report { title: None, message: None };
            },
            Some(file) => match self.pipeline.reload(file.handle(), attempt) {
                Ok(handle) => {
                    let text = handle.clone().concat(" loaded");
                    (Some(handle), Msg::success(text.as_str()))
                },
                Err(ReloadError::Read) => {
                    let text = String::from_str("failed to read ").concat(file.path());
                    (None, Msg::failure(text.as_str()))
                },
                Err(ReloadError::Compile(diagnostic)) => (None, Msg::failure(diagnostic.as_str())),
            },
        };
        let echo = msg.clone();
        self.log(msg);
        Report { title, message: Some(echo) }
    }

    /// Handles one input event. A dropped file is opened. `Esc` quits, and so
    /// does `Q` with the quit modifier; `R` reloads the watched file; `L`
    /// shows or hides the log; `C` empties the log while it is visible; `F`
    /// with the quit modifier toggles fullscreen.
    pub fn event(&mut self, event: Event, meta: bool) -> (action: Action)
        ensures
            final(self)@ == old(self)@.event(event@, meta),
            action == old(self)@.event_action(event@, meta),
    {
        match event {
            Event::FileDrop(file) => self.open(file),
            Event::KeyPress(key) => match key {
                Key::Esc => Action::Quit,
                Key::R => if self.file.is_some() {
                    Action::Reload
                } else {
                    Action::Idle
                },
                Key::L => {
                    self.log.toggle_visibility();
                    Action::Idle
                },
                Key::C => {
                    self.log.clear();
                    Action::Idle
                },
                Key::Q => if meta {
                    Action::Quit
                } else {
                    Action::Idle
                },
                Key::F => if meta {
                    Action::ToggleFullscreen
                } else {
                    Action::Idle
                },
                Key::Other => Action::Idle,
            },
            Event::Other => Action::Idle,
        }
    }

    /// The per-frame poll: `observed` is what the host just saw on the watched
    /// path. Asks for a reload when that differs from the observation before.
    pub fn update(&mut self, observed: Option<Timestamp>) -> (action: Action)
        ensures
            final(self)@ == old(self)@.update(observed),
            action == old(self)@.update_action(observed),
    {
        match &mut self.file {
            Some(file) => if file.check_modified(observed) {
                Action::Reload
            } else {
                Action::Idle
            },
            None => Action::Idle,
        }
    }

    /// Composes the frame: the active shader, or the instructions while there
    /// is none; and the log entries by age if the log is visible.
    pub fn draw(&self) -> (frame: Frame<'_, R>)
        ensures
            match frame.scene {
                Scene::Shader(resource) => self@.shader matches Some(loaded) && loaded.resource
                    == *resource,
                Scene::Text(text) => self@.shader is None && text@ == placeholder(),
            },
            lists(frame.overlay@, self@.overlay()),
    {
        let scene = match self.pipeline.resource() {
            Some(resource) => Scene::Shader(resource),
            None => Scene::Text("drop fragment shader files into this window"),
        };
        let overlay = if self.log.is_visible() {
            self.log.by_age()
        } else {
            Vec::new()
        };
        Frame { scene, overlay }
    }

    /// The watched file, if one is open.
    pub fn file(&self) -> (file: Option<&File>)
        ensures
            match file {
                Some(f) => self@.file == Some(f@),
                None => self@.file is None,
            },
    {
        self.file.as_ref()
    }

    /// The active shader, if any.
    pub fn shader(&self) -> (shader: Option<&R>)
        ensures
            match shader {
                Some(r) => self@.shader matches Some(loaded) && loaded.resource == *r,
                None => self@.shader is None,
            },
    {
        self.pipeline.resource()
    }

    /// The pipeline, for the active resource and its handle.
    pub fn pipeline(&self) -> (pipeline: &ShaderPipeline<R>)
        ensures
            pipeline@ == self@.shader,
    {
        &self.pipeline
    }

    /// The message log.
    pub fn messages(&self) -> (log: &MessageLog)
        ensures
            log@ == self@.log,
    {
        &self.log
    }
}

/// The viewer starts well-formed and every transition keeps it so. With no
/// file open there is never an active shader, and an opened file is never
/// closed again, only replaced.
pub proof fn lemma_transitions_keep_wf<R>(
    viewer: ViewerView<R>,
    file: FileView,
    msg: MsgView,
    attempt: AttemptView<R>,
    observed: Option<Timestamp>,
    event: EventView,
    meta: bool,
    argument: Option<FileView>,
    found: bool,
)
    requires
        viewer.wf(),
    ensures
        ViewerView::<R>::initial().wf(),
        init_state::<R>(argument, found).wf(),
        viewer.open(file).wf(),
        viewer.log(msg).wf(),
        viewer.refresh(attempt).wf(),
        viewer.update(observed).wf(),
        viewer.event(event, meta).wf(),
        viewer.file is Some ==> viewer.refresh(attempt).file is Some && viewer.update(
            observed,
        ).file is Some && viewer.event(event, meta).file is Some,
{
}

/// Reloads that fail leave the shader alone: after any number of attempts of
/// which none produced a resource, the active resource and its handle are what
/// they were.
pub proof fn lemma_failed_reloads_keep_shader<R>(
    viewer: ViewerView<R>,
    attempts: Seq<AttemptView<R>>,
)
    requires
        forall|i: int| 0 <= i < attempts.len() ==> !(#[trigger] attempts[i]).succeeded(),
    ensures
        viewer.refresh_all(attempts).shader == viewer.shader,
        viewer.refresh_all(attempts).file == viewer.file,
    decreases attempts.len(),
{
    if attempts.len() > 0 {
        let earlier = attempts.drop_last();
        assert forall|i: int| 0 <= i < earlier.len() implies !(#[trigger] earlier[i]).succeeded() by {
            assert(earlier[i] == attempts[i]);
        }
        lemma_failed_reloads_keep_shader(viewer, earlier);
        assert(!attempts[attempts.len() - 1].succeeded());
    }
}

/// Reloading is idempotent: when the watched file compiles to `resource` twice
/// in a row, the active shader and its handle are the same after the second
/// reload as after the first, the host is shown the same report, and each
/// reload records its own success entry, the second right after the first.
pub proof fn lemma_reload_twice<R>(viewer: ViewerView<R>, resource: R)
    requires
        viewer.file is Some,
    ensures
        ({
            let attempt = AttemptView::Read(Ok(resource));
            let file = viewer.file->0;
            let entry = MsgView::success(file.handle + " loaded"@);
            let once = viewer.refresh(attempt);
            let twice = once.refresh(attempt);
            &&& once.shader == Some(Loaded { resource, handle: file.handle })
            &&& twice.shader == once.shader
            &&& once.report(attempt) == viewer.report(attempt)
            &&& once.log == viewer.log.record(entry)
            &&& twice.log == once.log.record(entry)
            &&& viewer.log.bound >= 1 ==> once.log.entries.last() == entry
            &&& viewer.log.bound >= 2 ==> {
                let n = twice.log.entries.len();
                n >= 2 && twice.log.entries[n - 1] == entry && twice.log.entries[n - 2] == entry
            }
        }),
{
}

} // verus!
