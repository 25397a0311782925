//! The launch sequence as a state machine.
//!
//! A [`Launch`] names, one at a time, the call the host must make into the
//! embedded runtime ([`Action`]); the host makes it and reports what came back
//! ([`Event`]), including whether the call left an exception pending. The
//! machine then moves to its next [`Phase`] and names the next call.
//!
//! The order is fixed: load the library, create the runtime, attach the
//! thread, run the class-loading steps ([`BridgeStep`]), build the argument
//! array element by element, invoke the entry method, destroy the runtime.
//! After every call that can run code inside the runtime a pending exception
//! is checked for; when one is pending the only next call is to describe and
//! clear it, and the launch then fails.
use vstd::prelude::*;
use vstd::string::*;
use crate::error::LaunchError;
use crate::invocation::{absolute_jar, built_options, build, RuntimeConfig};
use crate::platform::{located_path, locate, Platform};
use crate::text::{copy_strings, joined, texts};

verus! {

/// The class-loading steps, in the order they run.
#[derive(Clone, Copy, Debug, PartialEq, Eq, Structural)]
pub enum BridgeStep {
    /// Build a URL value for `file://<absolute jar path>`.
    MakeUrl,
    /// Wrap the URL in a one-element array of URLs.
    WrapUrl,
    /// Obtain the calling thread's `Thread` object.
    CurrentThread,
    /// Obtain that thread's context class loader.
    ContextLoader,
    /// Create a class loader over the URL array, with the context loader as parent.
    NewLoader,
    /// Install the new loader as the thread's context class loader.
    InstallLoader,
    /// Load the entry class by name through the new loader.
    LoadClass,
    /// Resolve the static entry method on the loaded class.
    ResolveEntry,
}

/// What made a launch fail.
#[derive(Clone, Copy, Debug, PartialEq, Eq, Structural)]
pub enum Cause {
    Load,
    Creation { code: i32 },
    Attach { code: i32 },
    ClassLoad { step: BridgeStep },
    RuntimeException,
    Marshal,
    Protocol,
}

/// Where a launch stands: which call it waits on, or how it ended.
#[derive(Clone, Copy, Debug, PartialEq, Eq, Structural)]
pub enum Phase {
    /// Waiting for the shared library to load.
    Loading,
    /// Waiting for the runtime to be created.
    Creating,
    /// Waiting for the thread to attach.
    Attaching,
    /// Waiting for a class-loading step.
    Bridging { step: BridgeStep },
    /// Waiting for the string class, the element type of the argument array.
    FindingStringClass,
    /// Waiting for the argument array.
    Allocating,
    /// Waiting for the runtime string of an argument.
    Converting { index: usize },
    /// Waiting for an argument to be stored into the array.
    Storing { index: usize },
    /// Waiting for the entry method to return.
    Invoking,
    /// Waiting for the runtime to be destroyed.
    Destroying,
    /// Waiting for a pending exception to be described and cleared.
    Clearing { cause: Cause },
    /// The launch ran to its end.
    Finished,
    /// The launch failed.
    Failed { cause: Cause },
}

/// What a call into the runtime returned, as the host reports it.
#[derive(Clone, Debug)]
pub enum Event {
    /// The shared library was loaded.
    Loaded,
    /// The shared library is missing or failed to load.
    LoadFailed,
    /// A native status code; zero means success.
    Status { code: i32 },
    /// A call returned a reference, null or not, and left an exception
    /// pending or not.
    Reference { null: bool, pending: bool },
    /// A call returned nothing, and left an exception pending or not.
    Completed { pending: bool },
    /// The pending exception was described and cleared.
    Cleared { description: String },
}

/// The next call the host must make.
#[derive(Clone, Debug)]
pub enum Action {
    LoadLibrary { path: String },
    CreateRuntime { options: Vec<String> },
    AttachThread,
    MakeUrl { url: String },
    WrapUrl,
    CurrentThread,
    ContextLoader,
    NewLoader,
    InstallLoader,
    LoadClass { name: String },
    ResolveEntry { name: String, signature: String },
    FindClass { name: String },
    NewStringArray { length: usize },
    NewString { value: String },
    StoreArgument { index: usize },
    InvokeEntry,
    ClearException,
    DestroyRuntime,
    /// The launch is over and the runtime is gone.
    Exit,
    /// The launch failed; the process ends abnormally.
    Abort { error: LaunchError },
}

/// The step after `step`, if any.
pub open spec fn step_after(step: BridgeStep) -> Option<BridgeStep> {
    match step {
        BridgeStep::MakeUrl => Some(BridgeStep::WrapUrl),
        BridgeStep::WrapUrl => Some(BridgeStep::CurrentThread),
        BridgeStep::CurrentThread => Some(BridgeStep::ContextLoader),
        BridgeStep::ContextLoader => Some(BridgeStep::NewLoader),
        BridgeStep::NewLoader => Some(BridgeStep::InstallLoader),
        BridgeStep::InstallLoader => Some(BridgeStep::LoadClass),
        BridgeStep::LoadClass => Some(BridgeStep::ResolveEntry),
        BridgeStep::ResolveEntry => None,
    }
}

/// Whether the call of `step` returns nothing rather than a reference.
pub open spec fn returns_nothing(step: BridgeStep) -> bool {
    step == BridgeStep::InstallLoader
}

/// The phase after `step` succeeded.
pub open spec fn phase_after(step: BridgeStep) -> Phase {
    match step_after(step) {
        Some(s) => Phase::Bridging { step: s },
        None => Phase::FindingStringClass,
    }
}

/// Whether `e` reports an exception left pending by the call.
pub open spec fn leaves_pending(e: Event) -> bool {
    ||| e matches Event::Reference { pending, .. } && pending
    ||| e matches Event::Completed { pending } && pending
}

/// The outcome of a call that returns a reference; `failure` when the
/// reference is null. A pending exception is dealt with first, whatever the
/// event's kind.
pub open spec fn on_reference(e: Event, failure: Cause, clearing: Cause, success: Phase) -> Phase {
    if leaves_pending(e) {
        Phase::Clearing { cause: clearing }
    } else {
        match e {
            Event::Reference { null, .. } => if null {
                Phase::Failed { cause: failure }
            } else {
                success
            },
            _ => Phase::Failed { cause: Cause::Protocol },
        }
    }
}

/// The outcome of a call that returns nothing.
pub open spec fn on_completion(e: Event, clearing: Cause, success: Phase) -> Phase {
    if leaves_pending(e) {
        Phase::Clearing { cause: clearing }
    } else {
        match e {
            Event::Completed { .. } => success,
            _ => Phase::Failed { cause: Cause::Protocol },
        }
    }
}

/// The phase a launch with `argc` application arguments moves to when event
/// `e` answers the call it waited on in phase `p`.
pub open spec fn next_phase(p: Phase, e: Event, argc: nat) -> Phase {
    match p {
        Phase::Loading => match e {
            Event::Loaded => Phase::Creating,
            Event::LoadFailed => Phase::Failed { cause: Cause::Load },
            _ => Phase::Failed { cause: Cause::Protocol },
        },
        Phase::Creating => match e {
            Event::Status { code } => if code == 0 {
                Phase::Attaching
            } else {
                Phase::Failed { cause: Cause::Creation { code } }
            },
            _ => Phase::Failed { cause: Cause::Protocol },
        },
        Phase::Attaching => match e {
            Event::Status { code } => if code == 0 {
                Phase::Bridging { step: BridgeStep::MakeUrl }
            } else {
                Phase::Failed { cause: Cause::Attach { code } }
            },
            _ => Phase::Failed { cause: Cause::Protocol },
        },
        Phase::Bridging { step } => if returns_nothing(step) {
            on_completion(e, Cause::ClassLoad { step }, phase_after(step))
        } else {
            on_reference(e, Cause::ClassLoad { step }, Cause::ClassLoad { step }, phase_after(step))
        },
        Phase::FindingStringClass => on_reference(
            e,
            Cause::Marshal,
            Cause::RuntimeException,
            Phase::Allocating,
        ),
        Phase::Allocating => on_reference(
            e,
            Cause::Marshal,
            Cause::RuntimeException,
            if argc == 0 {
                Phase::Invoking
            } else {
                Phase::Converting { index: 0 }
            },
        ),
        Phase::Converting { index } => on_reference(
            e,
            Cause::Marshal,
            Cause::RuntimeException,
            Phase::Storing { index },
        ),
        Phase::Storing { index } => on_completion(
            e,
            Cause::RuntimeException,
            if index + 1 < argc {
                Phase::Converting { index: (index + 1) as usize }
            } else {
                Phase::Invoking
            },
        ),
        Phase::Invoking => on_completion(e, Cause::RuntimeException, Phase::Destroying),
        Phase::Destroying => match e {
            Event::Completed { .. } => Phase::Finished,
            _ => Phase::Failed { cause: Cause::Protocol },
        },
        Phase::Clearing { cause } => match e {
            Event::Cleared { .. } => Phase::Failed { cause },
            _ => Phase::Failed { cause: Cause::Protocol },
        },
        Phase::Finished => Phase::Finished,
        Phase::Failed { cause } => Phase::Failed { cause },
    }
}

/// The phases after each event of `events` in turn, starting from `p`.
pub open spec fn run(p: Phase, events: Seq<Event>, argc: nat) -> Phase
    decreases events.len(),
{
    if events.len() == 0 {
        p
    } else {
        next_phase(run(p, events.drop_last(), argc), events.last(), argc)
    }
}

/// The name of the entry method.
pub open spec fn entry_name() -> Seq<char> {
    "main"@
}

/// The entry method's signature: static, one array-of-strings parameter,
/// returns nothing.
pub open spec fn entry_signature() -> Seq<char> {
    "([Ljava/lang/String;)V"@
}

/// The runtime's name of its string class.
pub open spec fn string_class_name() -> Seq<char> {
    "java/lang/String"@
}

/// The URL under which the class loader finds the jar.
pub open spec fn jar_url(absolute_jar: Seq<char>) -> Seq<char> {
    "file://"@ + absolute_jar
}

/// What a launch holds, as sequences of characters.
pub struct LaunchView {
    pub library_path: Seq<char>,
    pub options: Seq<Seq<char>>,
    pub jar_url: Seq<char>,
    pub class_name: Seq<char>,
    pub arguments: Seq<Seq<char>>,
    pub description: Seq<char>,
    pub phase: Phase,
}

/// Whether `e` is the error a launch in view `v` reports for `cause`.
pub open spec fn reports(v: LaunchView, cause: Cause, e: LaunchError) -> bool {
    match cause {
        Cause::Load => e is LoadError,
        Cause::Creation { code } => e matches LaunchError::CreationError { code: c } && c == code,
        Cause::Attach { code } => e matches LaunchError::AttachError { code: c } && c == code,
        Cause::ClassLoad { step } => e matches LaunchError::ClassLoadError { step: s, class_name }
            && s == step && class_name@ == v.class_name,
        Cause::RuntimeException => e matches LaunchError::EmbeddedRuntimeException { description }
            && description@ == v.description,
        Cause::Marshal => e is MarshalError,
        Cause::Protocol => e is ProtocolError,
    }
}

/// Whether `a` is the call a launch in view `v` asks for.
pub open spec fn requests(v: LaunchView, a: Action) -> bool {
    match v.phase {
        Phase::Loading => a matches Action::LoadLibrary { path } && path@ == v.library_path,
        Phase::Creating => a matches Action::CreateRuntime { options } && texts(options@)
            == v.options,
        Phase::Attaching => a is AttachThread,
        Phase::Bridging { step } => match step {
            BridgeStep::MakeUrl => a matches Action::MakeUrl { url } && url@ == v.jar_url,
            BridgeStep::WrapUrl => a is WrapUrl,
            BridgeStep::CurrentThread => a is CurrentThread,
            BridgeStep::ContextLoader => a is ContextLoader,
            BridgeStep::NewLoader => a is NewLoader,
            BridgeStep::InstallLoader => a is InstallLoader,
            BridgeStep::LoadClass => a matches Action::LoadClass { name } && name@ == v.class_name,
            BridgeStep::ResolveEntry => a matches Action::ResolveEntry { name, signature } && name@
                == entry_name() && signature@ == entry_signature(),
        },
        Phase::FindingStringClass => a matches Action::FindClass { name } && name@
            == string_class_name(),
        Phase::Allocating => a matches Action::NewStringArray { length } && length
            == v.arguments.len(),
        Phase::Converting { index } => a matches Action::NewString { value } && value@
            == v.arguments[index as int],
        Phase::Storing { index } => a matches Action::StoreArgument { index: i } && i == index,
        Phase::Invoking => a is InvokeEntry,
        Phase::Destroying => a is DestroyRuntime,
        Phase::Clearing { .. } => a is ClearException,
        Phase::Finished => a is Exit,
        Phase::Failed { cause } => a matches Action::Abort { error } && reports(v, cause, error),
    }
}

/// Whether an argument index in `p` lies within `argc` arguments.
pub open spec fn index_fits(p: Phase, argc: nat) -> bool {
    match p {
        Phase::Converting { index } => index < argc,
        Phase::Storing { index } => index < argc,
        _ => true,
    }
}

/// One launch of the embedded runtime.
pub struct Launch {
    library_path: String,
    options: Vec<String>,
    jar_url: String,
    class_name: String,
    arguments: Vec<String>,
    description: String,
    phase: Phase,
}

impl View for Launch {
    type V = LaunchView;

    closed spec fn view(&self) -> LaunchView {
        LaunchView {
            library_path: self.library_path@,
            options: texts(self.options@),
            jar_url: self.jar_url@,
            class_name: self.class_name@,
            arguments: texts(self.arguments@),
            description: self.description@,
            phase: self.phase,
        }
    }
}

/// The description a launch holds after event `e` answers phase `p`: the
/// runtime's own text once a pending exception has been cleared.
pub open spec fn next_description(p: Phase, e: Event, d: Seq<char>) -> Seq<char> {
    if p is Clearing && e is Cleared {
        e->Cleared_description@
    } else {
        d
    }
}

/// The phase after event `e` answers the call awaited in phase `p`.
pub fn next(p: Phase, e: &Event, argc: usize) -> (r: Phase)
    requires
        index_fits(p, argc as nat),
    ensures
        r == next_phase(p, *e, argc as nat),
        index_fits(r, argc as nat),
{
    match p {
        Phase::Loading => match e {
            Event::Loaded => Phase::Creating,
            Event::LoadFailed => Phase::Failed { cause: Cause::Load },
            _ => Phase::Failed { cause: Cause::Protocol },
        },
        Phase::Creating => match e {
            Event::Status { code } => if *code == 0 {
                Phase::Attaching
            } else {
                Phase::Failed { cause: Cause::Creation { code: *code } }
            },
            _ => Phase::Failed { cause: Cause::Protocol },
        },
        Phase::Attaching => match e {
            Event::Status { code } => if *code == 0 {
                Phase::Bridging { step: BridgeStep::MakeUrl }
            } else {
                Phase::Failed { cause: Cause::Attach { code: *code } }
            },
            _ => Phase::Failed { cause: Cause::Protocol },
        },
        Phase::Bridging { step } => {
            let success = match step {
                BridgeStep::MakeUrl => Phase::Bridging { step: BridgeStep::WrapUrl },
                BridgeStep::WrapUrl => Phase::Bridging { step: BridgeStep::CurrentThread },
                BridgeStep::CurrentThread => Phase::Bridging { step: BridgeStep::ContextLoader },
                BridgeStep::ContextLoader => Phase::Bridging { step: BridgeStep::NewLoader },
                BridgeStep::NewLoader => Phase::Bridging { step: BridgeStep::InstallLoader },
                BridgeStep::InstallLoader => Phase::Bridging { step: BridgeStep::LoadClass },
                BridgeStep::LoadClass => Phase::Bridging { step: BridgeStep::ResolveEntry },
                BridgeStep::ResolveEntry => Phase::FindingStringClass,
            };
            let cause = Cause::ClassLoad { step };
            match step {
                BridgeStep::InstallLoader => completion(e, cause, success),
                _ => reference(e, cause, cause, success),
            }
        },
        Phase::FindingStringClass => reference(
            e,
            Cause::Marshal,
            Cause::RuntimeException,
            Phase::Allocating,
        ),
        Phase::Allocating => {
            let success = if argc == 0 {
                Phase::Invoking
            } else {
                Phase::Converting { index: 0 }
            };
            reference(e, Cause::Marshal, Cause::RuntimeException, success)
        },
        Phase::Converting { index } => reference(
            e,
            Cause::Marshal,
            Cause::RuntimeException,
            Phase::Storing { index },
        ),
        Phase::Storing { index } => {
            let success = if index + 1 < argc {
                Phase::Converting { index: index + 1 }
            } else {
                Phase::Invoking
            };
            completion(e, Cause::RuntimeException, success)
        },
        Phase::Invoking => completion(e, Cause::RuntimeException, Phase::Destroying),
        Phase::Destroying => match e {
            Event::Completed { .. } => Phase::Finished,
            _ => Phase::Failed { cause: Cause::Protocol },
        },
        Phase::Clearing { cause } => match e {
            Event::Cleared { .. } => Phase::Failed { cause },
            _ => Phase::Failed { cause: Cause::Protocol },
        },
        Phase::Finished => Phase::Finished,
        Phase::Failed { cause } => Phase::Failed { cause },
    }
}

/// Whether `e` reports an exception left pending.
pub fn is_pending(e: &Event) -> (r: bool)
    ensures
        r == leaves_pending(*e),
{
    match e {
        Event::Reference { pending, .. } => *pending,
        Event::Completed { pending } => *pending,
        _ => false,
    }
}

fn reference(e: &Event, failure: Cause, clearing: Cause, success: Phase) -> (r: Phase)
    ensures
        r == on_reference(*e, failure, clearing, success),
{
    if is_pending(e) {
        return Phase::Clearing { cause: clearing };
    }
    match e {
        Event::Reference { null, .. } => if *null {
            Phase::Failed { cause: failure }
        } else {
            success
        },
        _ => Phase::Failed { cause: Cause::Protocol },
    }
}

fn completion(e: &Event, clearing: Cause, success: Phase) -> (r: Phase)
    ensures
        r == on_completion(*e, clearing, success),
{
    if is_pending(e) {
        return Phase::Clearing { cause: clearing };
    }
    match e {
        Event::Completed { .. } => success,
        _ => Phase::Failed { cause: Cause::Protocol },
    }
}

impl Launch {
    #[verifier::type_invariant]
    spec fn indices_fit(&self) -> bool {
        index_fits(self.phase, self.arguments@.len())
    }

    /// Prepares the launch of `config` with application `arguments`: the
    /// library under `runtime_home`, the startup options with the jar
    /// resolved against `working_dir`, and the jar's URL. The launch starts
    /// by asking for the library to be loaded. Fails with `ConfigError`
    /// exactly when the jar path cannot be made absolute.
    pub fn new(
        platform: Platform,
        runtime_home: &str,
        working_dir: &str,
        config: &RuntimeConfig,
        arguments: &Vec<String>,
    ) -> (r: Result<Launch, LaunchError>)
        ensures
            match built_options(platform, working_dir@, config.jar@, texts(config.vm_args@)) {
                Some(o) => r matches Ok(l) && l@ == (LaunchView {
                    library_path: located_path(platform, runtime_home@),
                    options: o,
                    jar_url: jar_url(absolute_jar(platform, working_dir@, config.jar@)->0),
                    class_name: config.main_class@,
                    arguments: texts(arguments@),
                    description: Seq::empty(),
                    phase: Phase::Loading,
                }),
                None => r matches Err(LaunchError::ConfigError),
            },
    {
        let invocation = match build(platform, working_dir, config) {
            Ok(a) => a,
            Err(e) => return Err(e),
        };
        let absolute = match crate::invocation::absolute_jar_path(
            platform,
            working_dir,
            config.jar.as_str(),
        ) {
            Ok(a) => a,
            Err(e) => return Err(e),
        };
        let launch = Launch {
            library_path: locate(platform, runtime_home),
            options: invocation.options,
            jar_url: joined("file://", absolute.as_str()),
            class_name: config.main_class.clone(),
            arguments: copy_strings(arguments),
            description: String::new(),
            phase: Phase::Loading,
        };
        assert(launch@.description =~= Seq::<char>::empty());
        Ok(launch)
    }

    /// Where the launch stands.
    pub fn phase(&self) -> (r: Phase)
        ensures
            r == self@.phase,
    {
        self.phase
    }

    /// The call the launch waits on, or how it ended.
    pub fn request(&self) -> (r: Action)
        ensures
            requests(self@, r),
    {
        proof {
            use_type_invariant(self);
        }
        match self.phase {
            Phase::Loading => Action::LoadLibrary { path: self.library_path.clone() },
            Phase::Creating => Action::CreateRuntime { options: copy_strings(&self.options) },
            Phase::Attaching => Action::AttachThread,
            Phase::Bridging { step } => match step {
                BridgeStep::MakeUrl => Action::MakeUrl { url: self.jar_url.clone() },
                BridgeStep::WrapUrl => Action::WrapUrl,
                BridgeStep::CurrentThread => Action::CurrentThread,
                BridgeStep::ContextLoader => Action::ContextLoader,
                BridgeStep::NewLoader => Action::NewLoader,
                BridgeStep::InstallLoader => Action::InstallLoader,
                BridgeStep::LoadClass => Action::LoadClass { name: self.class_name.clone() },
                BridgeStep::ResolveEntry => Action::ResolveEntry {
                    name: String::from_str("main"),
                    signature: String::from_str("([Ljava/lang/String;)V"),
                },
            },
            Phase::FindingStringClass => Action::FindClass {
                name: String::from_str("java/lang/String"),
            },
            Phase::Allocating => Action::NewStringArray { length: self.arguments.len() },
            Phase::Converting { index } => Action::NewString {
                value: self.arguments[index].clone(),
            },
            Phase::Storing { index } => Action::StoreArgument { index },
            Phase::Invoking => Action::InvokeEntry,
            Phase::Destroying => Action::DestroyRuntime,
            Phase::Clearing { .. } => Action::ClearException,
            Phase::Finished => Action::Exit,
            Phase::Failed { cause } => Action::Abort { error: self.error_for(cause) },
        }
    }

    fn error_for(&self, cause: Cause) -> (r: LaunchError)
        ensures
            reports(self@, cause, r),
    {
        match cause {
            Cause::Load => LaunchError::LoadError,
            Cause::Creation { code } => LaunchError::CreationError { code },
            Cause::Attach { code } => LaunchError::AttachError { code },
            Cause::ClassLoad { step } => LaunchError::ClassLoadError {
                step,
                class_name: self.class_name.clone(),
            },
            Cause::RuntimeException => LaunchError::EmbeddedRuntimeException {
                description: self.description.clone(),
            },
            Cause::Marshal => LaunchError::MarshalError,
            Cause::Protocol => LaunchError::ProtocolError,
        }
    }

    /// Takes in what the awaited call returned and moves to the next phase.
    /// Everything but the phase, and the description once an exception has
    /// been cleared, stays as it was.
    pub fn advance(&mut self, event: Event)
        ensures
            final(self)@ == (LaunchView {
                phase: next_phase(old(self)@.phase, event, old(self)@.arguments.len()),
                description: next_description(old(self)@.phase, event, old(self)@.description),
                ..old(self)@
            }),
    {
        proof {
            use_type_invariant(&*self);
        }
        let p = next(self.phase, &event, self.arguments.len());
        if let Phase::Clearing { .. } = self.phase {
            if let Event::Cleared { description } = event {
                self.description = description;
            }
        }
        self.phase = p;
    }

    /// Takes in what the awaited call returned and names the next call.
    pub fn step(&mut self, event: Event) -> (r: Action)
        ensures
            final(self)@ == (LaunchView {
                phase: next_phase(old(self)@.phase, event, old(self)@.arguments.len()),
                description: next_description(old(self)@.phase, event, old(self)@.description),
                ..old(self)@
            }),
            requests(final(self)@, r),
    {
        self.advance(event);
        self.request()
    }
}

} // verus!
