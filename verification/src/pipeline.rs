//! The run of the generator as a state machine.
//!
//! A run alternates between work that only the driver can do (configuring
//! the toolchain, running the compiler, reading the environment, running the
//! extractor, writing files) and decisions. The decisions are made here:
//! [`Generator::step`] takes what the driver reports and says what it has to
//! do next. The stages follow each other in one order, nothing is tried
//! twice, and an error ends the run.

use crate::emit::{
    artifact_file_name, bindings_artifact, bindings_text, file_name_of, module_artifact,
    module_text,
};
use crate::error::{Artifact, GenerationError};
use crate::extractor::{extractor_config, extractor_settings, ExtractorConfig, ExtractorConfigView};
use crate::flags::{
    override_variable, override_variable_text, seeded, sysroot_flag_from_output,
    sysroot_flag_text, sysroot_query, sysroot_query_text, target_for, target_override, FlagSet,
    FlagSetView,
};
use crate::headers::{virtual_input, virtual_unit};
use crate::shims::{generate_deprecated_union_accessors, parsed_unions, shim_text};
use crate::text::{
    all_present, optional_text, optional_texts, present, require_all, texts,
};
use vstd::prelude::*;
use vstd::string::*;
use vstd::utf8::*;

verus! {

broadcast use vstd::seq::group_seq_axioms;

/// Where a run stands: what it is waiting for.
#[derive(Debug, Clone, Copy, PartialEq, Eq, Structural)]
pub enum Stage {
    /// Nothing has been done; the run waits for its inputs.
    Idle,
    /// The toolchain is being configured; the run waits for the compiler's
    /// kind.
    ProbingCompiler,
    /// The compiler is being asked for its sysroot.
    QueryingSysroot,
    /// The override variable is being read.
    ReadingOverride,
    /// The compiler's arguments are being collected.
    CollectingArguments,
    /// The extractor is running.
    Extracting,
    /// The first artifact is being written.
    WritingBindings,
    /// The second artifact is being written.
    WritingModule,
    /// Both artifacts are written.
    Finished,
    /// The run was given up.
    Failed(GenerationError),
}

/// What a run is started with.
#[derive(Debug, PartialEq, Eq)]
pub struct BuildInputs {
    /// The library's include directory; `None` where the path is not text.
    pub include_dir: Option<String>,
    /// The library's configuration header; `None` where the path is not text.
    pub config_h: Option<String>,
    /// The caller's compiler flags, in order.
    pub cflags: Vec<String>,
    /// The enabled headers, in inclusion order.
    pub headers: Vec<String>,
}

/// Mathematical model of [`BuildInputs`].
pub struct BuildInputsView {
    pub include_dir: Option<Seq<char>>,
    pub config_h: Option<Seq<char>>,
    pub cflags: Seq<Seq<char>>,
    pub headers: Seq<Seq<char>>,
}

impl View for BuildInputs {
    type V = BuildInputsView;

    open spec fn view(&self) -> BuildInputsView {
        BuildInputsView {
            include_dir: optional_text(self.include_dir),
            config_h: optional_text(self.config_h),
            cflags: texts(self.cflags@),
            headers: texts(self.headers@),
        }
    }
}

/// What the driver reports.
#[derive(Debug, PartialEq, Eq)]
pub enum Event {
    /// The run's inputs.
    Start(BuildInputs),
    /// The toolchain is configured; whether its compiler is GNU-like.
    CompilerProbed { like_gnu: bool },
    /// What the compiler printed for the sysroot query; `None` where it could
    /// not be run.
    SysrootAnswered { stdout: Option<Vec<u8>> },
    /// Whether the override variable is set.
    OverrideRead { requested: bool },
    /// The compiler's arguments, in order; `None` for one that is not text.
    ArgumentsCollected { arguments: Vec<Option<String>> },
    /// The extractor's output; `None` where it failed.
    Extracted { declarations: Option<String> },
    /// Whether the artifact was written.
    Written { done: bool },
}

/// Mathematical model of an [`Event`].
pub enum EventView {
    Start(BuildInputsView),
    CompilerProbed { like_gnu: bool },
    SysrootAnswered { stdout: Option<Seq<u8>> },
    OverrideRead { requested: bool },
    ArgumentsCollected { arguments: Seq<Option<Seq<char>>> },
    Extracted { declarations: Option<Seq<char>> },
    Written { done: bool },
}

impl View for Event {
    type V = EventView;

    open spec fn view(&self) -> EventView {
        match self {
            Event::Start(inputs) => EventView::Start(inputs@),
            Event::CompilerProbed { like_gnu } => EventView::CompilerProbed { like_gnu: *like_gnu },
            Event::SysrootAnswered { stdout } => EventView::SysrootAnswered {
                stdout: match stdout {
                    Some(bytes) => Some(bytes@),
                    None => None,
                },
            },
            Event::OverrideRead { requested } => EventView::OverrideRead { requested: *requested },
            Event::ArgumentsCollected { arguments } => EventView::ArgumentsCollected {
                arguments: optional_texts(arguments@),
            },
            Event::Extracted { declarations } => EventView::Extracted {
                declarations: optional_text(*declarations),
            },
            Event::Written { done } => EventView::Written { done: *done },
        }
    }
}

/// What the driver has to do next.
#[derive(Debug, PartialEq, Eq)]
pub enum Action {
    /// Configure the toolchain with the include directory and the arguments,
    /// in order; report the compiler's kind.
    Configure { include_dir: String, arguments: Vec<String> },
    /// Run the compiler with the argument; report what it printed.
    QuerySysroot { argument: String },
    /// Add the flag, if there is one, to the toolchain; report whether the
    /// variable is set.
    ReadOverride { flag: Option<String>, variable: String },
    /// Report the compiler's arguments, collected with the target, if there
    /// is one, in force for the time of the collection and no longer.
    CollectArguments { target: Option<String> },
    /// Run the extractor, with the target of its configuration, if there is
    /// one, in force for the time of the extraction and no longer; report its
    /// output.
    Extract { config: ExtractorConfig },
    /// Write the contents to the file of that name, replacing what is there;
    /// report whether that was done.
    Write { artifact: Artifact, file_name: String, contents: String },
    /// Nothing: the run is complete.
    Finish,
    /// Give the run up with this error.
    Abort { error: GenerationError },
}

/// Mathematical model of an [`Action`].
pub enum ActionView {
    Configure { include_dir: Seq<char>, arguments: Seq<Seq<char>> },
    QuerySysroot { argument: Seq<char> },
    ReadOverride { flag: Option<Seq<char>>, variable: Seq<char> },
    CollectArguments { target: Option<Seq<char>> },
    Extract { config: ExtractorConfigView },
    Write { artifact: Artifact, file_name: Seq<char>, contents: Seq<char> },
    Finish,
    Abort { error: GenerationError },
}

impl View for Action {
    type V = ActionView;

    open spec fn view(&self) -> ActionView {
        match self {
            Action::Configure { include_dir, arguments } => ActionView::Configure {
                include_dir: include_dir@,
                arguments: texts(arguments@),
            },
            Action::QuerySysroot { argument } => ActionView::QuerySysroot { argument: argument@ },
            Action::ReadOverride { flag, variable } => ActionView::ReadOverride {
                flag: optional_text(*flag),
                variable: variable@,
            },
            Action::CollectArguments { target } => ActionView::CollectArguments {
                target: optional_text(*target),
            },
            Action::Extract { config } => ActionView::Extract { config: config@ },
            Action::Write { artifact, file_name, contents } => ActionView::Write {
                artifact: *artifact,
                file_name: file_name@,
                contents: contents@,
            },
            Action::Finish => ActionView::Finish,
            Action::Abort { error } => ActionView::Abort { error: *error },
        }
    }
}

/// A run of the generator.
#[derive(Debug, PartialEq, Eq)]
pub struct Generator {
    stage: Stage,
    flags: FlagSet,
    input: String,
    target: bool,
}

/// Mathematical model of a [`Generator`].
pub struct GeneratorView {
    /// What the run is waiting for.
    pub stage: Stage,
    /// What the toolchain has been configured with so far.
    pub flags: FlagSetView,
    /// The virtual input unit.
    pub input: Seq<char>,
    /// Whether the target override is requested.
    pub target: bool,
}

impl View for Generator {
    type V = GeneratorView;

    closed spec fn view(&self) -> GeneratorView {
        GeneratorView {
            stage: self.stage,
            flags: self.flags@,
            input: self.input@,
            target: self.target,
        }
    }
}

/// A run before it is started.
pub open spec fn idle() -> GeneratorView {
    GeneratorView {
        stage: Stage::Idle,
        flags: FlagSetView { include_dir: Seq::empty(), arguments: Seq::empty() },
        input: Seq::empty(),
        target: false,
    }
}

/// The run is given up: it fails with the error and is told to abort.
pub open spec fn failed(s: GeneratorView, error: GenerationError) -> (GeneratorView, ActionView) {
    (GeneratorView { stage: Stage::Failed(error), ..s }, ActionView::Abort { error })
}

/// The run gets its inputs. Both paths have to be text, the configuration
/// header's first. The toolchain is then configured with the seeded flag set.
pub open spec fn on_start(s: GeneratorView, inputs: BuildInputsView) -> (
    GeneratorView,
    ActionView,
) {
    match inputs.config_h {
        None => failed(s, GenerationError::ConfigPathNotText),
        Some(config_path) => match inputs.include_dir {
            None => failed(s, GenerationError::IncludePathNotText),
            Some(include_dir) => {
                let flags = seeded(include_dir, config_path, inputs.cflags);
                (
                    GeneratorView {
                        stage: Stage::ProbingCompiler,
                        flags,
                        input: virtual_unit(inputs.headers),
                        target: s.target,
                    },
                    ActionView::Configure { include_dir, arguments: flags.arguments },
                )
            },
        },
    }
}

/// The compiler's kind is known: a GNU-like compiler is asked for its
/// sysroot, any other is not.
pub open spec fn on_compiler(s: GeneratorView, like_gnu: bool) -> (GeneratorView, ActionView) {
    if like_gnu {
        (
            GeneratorView { stage: Stage::QueryingSysroot, ..s },
            ActionView::QuerySysroot { argument: sysroot_query_text() },
        )
    } else {
        (
            GeneratorView { stage: Stage::ReadingOverride, ..s },
            ActionView::ReadOverride { flag: None, variable: override_variable_text() },
        )
    }
}

/// The sysroot query is answered. Where the compiler could not be run, the
/// run goes on without a sysroot flag. What it printed has to be text; the
/// sysroot flag made of it joins the flag set.
pub open spec fn on_sysroot(s: GeneratorView, stdout: Option<Seq<u8>>) -> (
    GeneratorView,
    ActionView,
) {
    match stdout {
        None => (
            GeneratorView { stage: Stage::ReadingOverride, ..s },
            ActionView::ReadOverride { flag: None, variable: override_variable_text() },
        ),
        Some(bytes) => if valid_utf8(bytes) {
            let flag = sysroot_flag_text(decode_utf8(bytes));
            (
                GeneratorView {
                    stage: Stage::ReadingOverride,
                    flags: FlagSetView {
                        include_dir: s.flags.include_dir,
                        arguments: s.flags.arguments.push(flag),
                    },
                    ..s
                },
                ActionView::ReadOverride { flag: Some(flag), variable: override_variable_text() },
            )
        } else {
            failed(s, GenerationError::MalformedSysroot)
        },
    }
}

/// The override variable is read: where it is set, the substitute target is
/// forced before the compiler's arguments are collected.
pub open spec fn on_override(s: GeneratorView, requested: bool) -> (GeneratorView, ActionView) {
    (
        GeneratorView { stage: Stage::CollectingArguments, target: requested, ..s },
        ActionView::CollectArguments { target: target_for(requested) },
    )
}

/// The compiler's arguments are collected. Each has to be text; the
/// extractor is then run with them, on the virtual input unit.
pub open spec fn on_arguments(s: GeneratorView, arguments: Seq<Option<Seq<char>>>) -> (
    GeneratorView,
    ActionView,
) {
    if all_present(arguments) {
        (
            GeneratorView { stage: Stage::Extracting, ..s },
            ActionView::Extract {
                config: extractor_settings(present(arguments), s.input, target_for(s.target)),
            },
        )
    } else {
        failed(s, GenerationError::ArgumentNotText)
    }
}

/// The extractor is done. Its output has to be there and has to parse; the
/// first artifact is then written: the output, the shims for its unions, the
/// import line.
pub open spec fn on_extracted(s: GeneratorView, declarations: Option<Seq<char>>) -> (
    GeneratorView,
    ActionView,
) {
    match declarations {
        None => failed(s, GenerationError::Extraction),
        Some(text) => match parsed_unions(text) {
            None => failed(s, GenerationError::MalformedDeclarations),
            Some(unions) => (
                GeneratorView { stage: Stage::WritingBindings, ..s },
                ActionView::Write {
                    artifact: Artifact::Bindings,
                    file_name: file_name_of(Artifact::Bindings),
                    contents: bindings_text(text, shim_text(unions)),
                },
            ),
        },
    }
}

/// The first artifact is written, or not: the second one follows it.
pub open spec fn on_bindings_written(s: GeneratorView, done: bool) -> (GeneratorView, ActionView) {
    if done {
        (
            GeneratorView { stage: Stage::WritingModule, ..s },
            ActionView::Write {
                artifact: Artifact::Module,
                file_name: file_name_of(Artifact::Module),
                contents: module_text(),
            },
        )
    } else {
        failed(s, GenerationError::Io(Artifact::Bindings))
    }
}

/// The second artifact is written, or not: the run is complete.
pub open spec fn on_module_written(s: GeneratorView, done: bool) -> (GeneratorView, ActionView) {
    if done {
        (GeneratorView { stage: Stage::Finished, ..s }, ActionView::Finish)
    } else {
        failed(s, GenerationError::Io(Artifact::Module))
    }
}

/// One step of a run: the state after the event, and what the driver has to
/// do next. An event that the run is not waiting for ends it. A run that is
/// complete or given up stays as it is.
pub open spec fn next(s: GeneratorView, e: EventView) -> (GeneratorView, ActionView) {
    match s.stage {
        Stage::Idle => match e {
            EventView::Start(inputs) => on_start(s, inputs),
            _ => failed(s, GenerationError::UnexpectedEvent),
        },
        Stage::ProbingCompiler => match e {
            EventView::CompilerProbed { like_gnu } => on_compiler(s, like_gnu),
            _ => failed(s, GenerationError::UnexpectedEvent),
        },
        Stage::QueryingSysroot => match e {
            EventView::SysrootAnswered { stdout } => on_sysroot(s, stdout),
            _ => failed(s, GenerationError::UnexpectedEvent),
        },
        Stage::ReadingOverride => match e {
            EventView::OverrideRead { requested } => on_override(s, requested),
            _ => failed(s, GenerationError::UnexpectedEvent),
        },
        Stage::CollectingArguments => match e {
            EventView::ArgumentsCollected { arguments } => on_arguments(s, arguments),
            _ => failed(s, GenerationError::UnexpectedEvent),
        },
        Stage::Extracting => match e {
            EventView::Extracted { declarations } => on_extracted(s, declarations),
            _ => failed(s, GenerationError::UnexpectedEvent),
        },
        Stage::WritingBindings => match e {
            EventView::Written { done } => on_bindings_written(s, done),
            _ => failed(s, GenerationError::UnexpectedEvent),
        },
        Stage::WritingModule => match e {
            EventView::Written { done } => on_module_written(s, done),
            _ => failed(s, GenerationError::UnexpectedEvent),
        },
        Stage::Finished => (s, ActionView::Finish),
        Stage::Failed(error) => (s, ActionView::Abort { error }),
    }
}

impl Generator {
    /// A run before it is started.
    pub fn new() -> (run: Generator)
        ensures
            run@ == idle(),
    {
        let run = Generator {
            stage: Stage::Idle,
            flags: FlagSet { include_dir: String::new(), arguments: Vec::new() },
            input: String::new(),
            target: false,
        };
        assert(run@.flags.arguments =~= Seq::<Seq<char>>::empty());
        run
    }

    /// What the run is waiting for.
    pub fn stage(&self) -> (stage: Stage)
        ensures
            stage == self@.stage,
    {
        self.stage
    }

    /// What the toolchain has been configured with so far.
    pub fn flags(&self) -> (flags: &FlagSet)
        ensures
            flags@ == self@.flags,
    {
        &self.flags
    }

    /// The virtual input unit.
    pub fn input(&self) -> (input: &str)
        ensures
            input@ == self@.input,
    {
        self.input.as_str()
    }

    fn fail(&mut self, error: GenerationError) -> (action: Action)
        ensures
            (final(self)@, action@) == failed(old(self)@, error),
    {
        self.stage = Stage::Failed(error);
        Action::Abort { error }
    }

    fn start(&mut self, inputs: BuildInputs) -> (action: Action)
        ensures
            (final(self)@, action@) == on_start(old(self)@, inputs@),
    {
        let config_path = match &inputs.config_h {
            Some(path) => path,
            None => {
                return self.fail(GenerationError::ConfigPathNotText);
            },
        };
        let include_dir = match &inputs.include_dir {
            Some(dir) => dir,
            None => {
                return self.fail(GenerationError::IncludePathNotText);
            },
        };
        self.flags = FlagSet::seed(include_dir.as_str(), config_path.as_str(), &inputs.cflags);
        self.input = virtual_input(&inputs.headers);
        self.stage = Stage::ProbingCompiler;
        Action::Configure { include_dir: include_dir.clone(), arguments: self.flags.arguments() }
    }

    fn compiler_probed(&mut self, like_gnu: bool) -> (action: Action)
        ensures
            (final(self)@, action@) == on_compiler(old(self)@, like_gnu),
    {
        if like_gnu {
            self.stage = Stage::QueryingSysroot;
            Action::QuerySysroot { argument: String::from_str(sysroot_query()) }
        } else {
            self.stage = Stage::ReadingOverride;
            Action::ReadOverride { flag: None, variable: String::from_str(override_variable()) }
        }
    }

    fn sysroot_answered(&mut self, stdout: Option<Vec<u8>>) -> (action: Action)
        ensures
            (final(self)@, action@) == on_sysroot(
                old(self)@,
                match stdout {
                    Some(bytes) => Some(bytes@),
                    None => None,
                },
            ),
    {
        let flag = match stdout {
            None => None,
            Some(bytes) => match sysroot_flag_from_output(bytes.as_slice()) {
                Ok(flag) => Some(flag),
                Err(error) => {
                    return self.fail(error);
                },
            },
        };
        match &flag {
            Some(f) => {
                self.flags.add(f.clone());
            },
            None => {},
        }
        self.stage = Stage::ReadingOverride;
        Action::ReadOverride { flag, variable: String::from_str(override_variable()) }
    }

    fn override_read(&mut self, requested: bool) -> (action: Action)
        ensures
            (final(self)@, action@) == on_override(old(self)@, requested),
    {
        self.target = requested;
        self.stage = Stage::CollectingArguments;
        Action::CollectArguments { target: target_override(requested) }
    }

    fn arguments_collected(&mut self, arguments: Vec<Option<String>>) -> (action: Action)
        ensures
            (final(self)@, action@) == on_arguments(old(self)@, optional_texts(arguments@)),
    {
        match require_all(&arguments) {
            Some(clang_args) => {
                self.stage = Stage::Extracting;
                let config = extractor_config(
                    clang_args,
                    self.input.clone(),
                    target_override(self.target),
                );
                Action::Extract { config }
            },
            None => self.fail(GenerationError::ArgumentNotText),
        }
    }

    fn extracted(&mut self, declarations: Option<String>) -> (action: Action)
        ensures
            (final(self)@, action@) == on_extracted(old(self)@, optional_text(declarations)),
    {
        let text = match declarations {
            Some(text) => text,
            None => {
                return self.fail(GenerationError::Extraction);
            },
        };
        match generate_deprecated_union_accessors(text.as_str()) {
            Ok(shims) => {
                self.stage = Stage::WritingBindings;
                Action::Write {
                    artifact: Artifact::Bindings,
                    file_name: String::from_str(artifact_file_name(Artifact::Bindings)),
                    contents: bindings_artifact(text.as_str(), shims.as_str()),
                }
            },
            Err(_) => self.fail(GenerationError::MalformedDeclarations),
        }
    }

    fn bindings_written(&mut self, done: bool) -> (action: Action)
        ensures
            (final(self)@, action@) == on_bindings_written(old(self)@, done),
    {
        if done {
            self.stage = Stage::WritingModule;
            Action::Write {
                artifact: Artifact::Module,
                file_name: String::from_str(artifact_file_name(Artifact::Module)),
                contents: module_artifact(),
            }
        } else {
            self.fail(GenerationError::Io(Artifact::Bindings))
        }
    }

    fn module_written(&mut self, done: bool) -> (action: Action)
        ensures
            (final(self)@, action@) == on_module_written(old(self)@, done),
    {
        if done {
            self.stage = Stage::Finished;
            Action::Finish
        } else {
            self.fail(GenerationError::Io(Artifact::Module))
        }
    }

    /// Takes one step: from what the driver reports to what it has to do
    /// next.
    pub fn step(&mut self, event: Event) -> (action: Action)
        ensures
            (final(self)@, action@) == next(old(self)@, event@),
    {
        let stage = self.stage;
        match stage {
            Stage::Idle => match event {
                Event::Start(inputs) => self.start(inputs),
                _ => self.fail(GenerationError::UnexpectedEvent),
            },
            Stage::ProbingCompiler => match event {
                Event::CompilerProbed { like_gnu } => self.compiler_probed(like_gnu),
                _ => self.fail(GenerationError::UnexpectedEvent),
            },
            Stage::QueryingSysroot => match event {
                Event::SysrootAnswered { stdout } => self.sysroot_answered(stdout),
                _ => self.fail(GenerationError::UnexpectedEvent),
            },
            Stage::ReadingOverride => match event {
                Event::OverrideRead { requested } => self.override_read(requested),
                _ => self.fail(GenerationError::UnexpectedEvent),
            },
            Stage::CollectingArguments => match event {
                Event::ArgumentsCollected { arguments } => self.arguments_collected(arguments),
                _ => self.fail(GenerationError::UnexpectedEvent),
            },
            Stage::Extracting => match event {
                Event::Extracted { declarations } => self.extracted(declarations),
                _ => self.fail(GenerationError::UnexpectedEvent),
            },
            Stage::WritingBindings => match event {
                Event::Written { done } => self.bindings_written(done),
                _ => self.fail(GenerationError::UnexpectedEvent),
            },
            Stage::WritingModule => match event {
                Event::Written { done } => self.module_written(done),
                _ => self.fail(GenerationError::UnexpectedEvent),
            },
            Stage::Finished => Action::Finish,
            Stage::Failed(error) => Action::Abort { error },
        }
    }
}

} // verus!

verus! {

/// A run that is complete or given up.
pub open spec fn is_terminal(stage: Stage) -> bool {
    stage is Finished || stage is Failed
}

/// The place of a stage in the order of a run.
pub open spec fn rank(stage: Stage) -> nat {
    match stage {
        Stage::Idle => 0,
        Stage::ProbingCompiler => 1,
        Stage::QueryingSysroot => 2,
        Stage::ReadingOverride => 3,
        Stage::CollectingArguments => 4,
        Stage::Extracting => 5,
        Stage::WritingBindings => 6,
        Stage::WritingModule => 7,
        Stage::Finished => 8,
        Stage::Failed(_) => 8,
    }
}

/// The state of a run after a sequence of events.
pub open spec fn run(s: GeneratorView, events: Seq<EventView>) -> GeneratorView
    decreases events.len(),
{
    if events.len() == 0 {
        s
    } else {
        next(run(s, events.drop_last()), events.last()).0
    }
}

/// A run that is complete or given up stays as it is, whatever is reported:
/// no failure is recovered from, and nothing is done after the end.
pub proof fn lemma_terminal_is_absorbing(s: GeneratorView, e: EventView)
    requires
        is_terminal(s.stage),
    ensures
        next(s, e).0 == s,
        s.stage is Finished ==> next(s, e).1 == ActionView::Finish,
        s.stage matches Stage::Failed(error) ==> next(s, e).1 == (ActionView::Abort { error }),
{
}

/// Every step of a run that is under way takes it to a later stage: the
/// stages follow each other in one order, and none is entered twice.
pub proof fn lemma_step_advances(s: GeneratorView, e: EventView)
    requires
        !is_terminal(s.stage),
    ensures
        rank(next(s, e).0.stage) > rank(s.stage),
{
}

/// The driver is told to abort exactly by the step that ends in failure, and
/// with the error that the run then holds.
pub proof fn lemma_failure_aborts(s: GeneratorView, e: EventView, error: GenerationError)
    ensures
        next(s, e).0.stage == Stage::Failed(error) <==> next(s, e).1 == (ActionView::Abort {
            error,
        }),
{
}

/// After the start only the answer to the sysroot query changes the flag
/// set, and only by adding the sysroot flag behind what is there: that is
/// where a GNU-like compiler printed text.
pub proof fn lemma_flags_change(s: GeneratorView, e: EventView)
    requires
        s.stage != Stage::Idle,
        next(s, e).0.flags != s.flags,
    ensures
        s.stage == Stage::QueryingSysroot,
        e matches EventView::SysrootAnswered { stdout: Some(bytes) } && valid_utf8(bytes) && next(
            s,
            e,
        ).0.flags == (FlagSetView {
            include_dir: s.flags.include_dir,
            arguments: s.flags.arguments.push(sysroot_flag_text(decode_utf8(bytes))),
        }),
{
}

/// Once the override variable is being read, the flag set is settled: no
/// later step changes it, so the extractor sees what the toolchain was
/// configured with.
pub proof fn lemma_flags_settle(s: GeneratorView, e: EventView)
    requires
        rank(s.stage) >= rank(Stage::ReadingOverride),
    ensures
        next(s, e).0.flags == s.flags,
{
}

/// After the start no step changes the virtual input unit, and the extractor
/// is run on it.
pub proof fn lemma_input_is_kept(s: GeneratorView, e: EventView)
    requires
        s.stage != Stage::Idle,
    ensures
        next(s, e).0.input == s.input,
        next(s, e).1 matches ActionView::Extract { config } ==> config.header_contents == s.input,
{
}

/// A compiler that is not GNU-like is never asked for its sysroot.
pub proof fn lemma_no_query_without_gnu(s: GeneratorView, e: EventView)
    ensures
        next(s, e).1 is QuerySysroot <==> s.stage == Stage::ProbingCompiler && e
            == (EventView::CompilerProbed { like_gnu: true }),
{
}

/// The second artifact is written only after the first one was.
pub proof fn lemma_module_follows_bindings(s: GeneratorView, e: EventView)
    ensures
        next(s, e).1 matches ActionView::Write { artifact: Artifact::Module, .. } ==> s.stage
            == Stage::WritingBindings && e == (EventView::Written { done: true }),
        next(s, e).1 matches ActionView::Write { artifact: Artifact::Bindings, .. } ==> s.stage
            == Stage::Extracting,
{
}

/// After any sequence of events a run has advanced by at least as many
/// stages as there were events, or has ended.
pub proof fn lemma_run_advances(s: GeneratorView, events: Seq<EventView>)
    ensures
        is_terminal(run(s, events).stage) || rank(run(s, events).stage) >= rank(s.stage)
            + events.len(),
    decreases events.len(),
{
    if events.len() > 0 {
        let before = run(s, events.drop_last());
        lemma_run_advances(s, events.drop_last());
        if !is_terminal(before.stage) {
            lemma_step_advances(before, events.last());
        }
    }
}

/// No run goes on for more than eight steps.
pub proof fn lemma_run_ends(events: Seq<EventView>)
    requires
        events.len() >= 8,
    ensures
        is_terminal(run(idle(), events).stage),
{
    lemma_run_advances(idle(), events);
}

} // verus!
