//! The broker's executable name, its full path, and the supervisor that records
//! whether the broker was launched.

use vstd::prelude::*;
use vstd::string::*;
use crate::env_resolve::{
    get_external_binary_path, is_rooted, join_path, separator, spec_external_binary_path,
    spec_is_dev, spec_join,
};

verus! {

/// The logical name of the broker, the first part of its executable's file name.
pub open spec fn spec_component() -> Seq<char> {
    "mosquitto"@
}

/// The file name of the executable of `component` built for the platform `triple`.
pub open spec fn spec_platform_identifier(component: Seq<char>, triple: Seq<char>) -> Seq<char> {
    component + seq!['-'] + triple
}

/// The full path of the executable of `component` for the platform `triple`.
pub open spec fn spec_binary_path(
    environment: Option<&str>,
    current_dir: Seq<char>,
    component: Seq<char>,
    triple: Seq<char>,
) -> Seq<char> {
    spec_join(
        spec_external_binary_path(environment, current_dir),
        spec_platform_identifier(component, triple),
    )
}

/// The text of the platform this library was built for, as
/// `target_lexicon::Triple::host()` reports it and its `Display` impl prints it.
/// The text differs from one build target to the next, so nothing is claimed of it.
#[verifier::external_body]
fn host_triple() -> (triple: String) {
    target_lexicon::Triple::host().to_string()
}

/// Builds the file name of the executable of `component` for the platform `triple`.
pub fn platform_identifier(component: &str, triple: &str) -> (name: String)
    ensures
        name@ == spec_platform_identifier(component@, triple@),
{
    proof {
        reveal_strlit("-");
        assert("-"@ =~= seq!['-']);
    }
    let mut name = String::from_str(component);
    name.append("-");
    name.append(triple);
    name
}

/// Builds the file name of the broker's executable for the host platform, which is
/// looked up anew on each call.
pub fn get_triple_target() -> (name: String)
    ensures
        exists|triple: Seq<char>| name@ == spec_platform_identifier(spec_component(), triple),
{
    let triple = host_triple();
    let name = platform_identifier("mosquitto", triple.as_str());
    assert(name@ == spec_platform_identifier(spec_component(), triple@));
    name
}

/// Computes the full path of the executable of `component` for the platform
/// `triple`, from the value of the `ENVIRONMENT` variable and the working directory.
pub fn binary_path_for(
    environment: Option<&str>,
    current_dir: &str,
    component: &str,
    triple: &str,
) -> (path: String)
    ensures
        path@ == spec_binary_path(environment, current_dir@, component@, triple@),
{
    let directory = get_external_binary_path(environment, current_dir);
    let name = platform_identifier(component, triple);
    join_path(directory.as_str(), name.as_str())
}

/// Computes the full path of the broker's executable for the host platform.
pub fn resolve_binary_path(environment: Option<&str>, current_dir: &str) -> (path: String)
    ensures
        exists|triple: Seq<char>|
            path@ == spec_binary_path(environment, current_dir@, spec_component(), triple),
{
    let directory = get_external_binary_path(environment, current_dir);
    let name = get_triple_target();
    let path = join_path(directory.as_str(), name.as_str());
    proof {
        let triple = choose|triple: Seq<char>|
            name@ == spec_platform_identifier(spec_component(), triple);
        assert(path@ == spec_binary_path(environment, current_dir@, spec_component(), triple));
    }
    path
}

/// How the host program is to launch the broker: the executable to run, the
/// arguments to pass it, and whether its standard output goes to a pipe of the
/// supervisor's instead of the host's own console.
pub struct LaunchRequest {
    pub program: String,
    pub arguments: Vec<String>,
    pub stdout_piped: bool,
}

/// Says how to launch the broker: the executable resolved for the host platform,
/// without arguments, its standard output piped.
pub fn launch_request(environment: Option<&str>, current_dir: &str) -> (request: LaunchRequest)
    ensures
        exists|triple: Seq<char>|
            request.program@ == spec_binary_path(
                environment,
                current_dir@,
                spec_component(),
                triple,
            ),
        request.arguments@.len() == 0,
        request.stdout_piped,
{
    LaunchRequest {
        program: resolve_binary_path(environment, current_dir),
        arguments: Vec::new(),
        stdout_piped: true,
    }
}

/// The broker's name does not start at the root, so its executable always lies
/// below the working directory.
pub proof fn lemma_component_is_relative()
    ensures
        !is_rooted(spec_component()),
{
    reveal_strlit("mosquitto");
}

/// Outside development mode the executable sits directly in the working directory,
/// with no folder in between: whatever the variable holds, as long as it is not
/// exactly `DEV`, and also when it is unset. Where the working directory does not
/// end in a separator and the component is not rooted, that is the working
/// directory, one separator and the file name.
pub proof fn lemma_packaged_layout(
    environment: Option<&str>,
    current_dir: Seq<char>,
    component: Seq<char>,
    triple: Seq<char>,
)
    requires
        !spec_is_dev(environment),
    ensures
        spec_binary_path(environment, current_dir, component, triple) == spec_join(
            current_dir,
            spec_platform_identifier(component, triple),
        ),
        spec_binary_path(environment, current_dir, component, triple) == spec_binary_path(
            None,
            current_dir,
            component,
            triple,
        ),
        current_dir.len() > 0 && current_dir.last() != separator() && !is_rooted(component)
            ==> spec_binary_path(environment, current_dir, component, triple) == current_dir
            + seq!['/'] + component + seq!['-'] + triple,
{
    let name = spec_platform_identifier(component, triple);
    let directory = spec_external_binary_path(environment, current_dir);
    assert(current_dir + Seq::<char>::empty() =~= current_dir);
    if current_dir.len() > 0 && current_dir.last() != separator() {
        assert(directory =~= current_dir.push(separator()));
        assert(directory.last() == separator());
        if !is_rooted(component) {
            assert(name[0] == (component + seq!['-'])[0]);
            assert(directory + name =~= current_dir + seq!['/'] + component + seq!['-'] + triple);
        }
    }
}

/// In development mode the executable sits in the folder `binaries` of the working
/// directory. Where the working directory does not end in a separator and the
/// component is not rooted, that is the working directory, `/binaries/` and the
/// file name.
pub proof fn lemma_development_layout(
    environment: Option<&str>,
    current_dir: Seq<char>,
    component: Seq<char>,
    triple: Seq<char>,
)
    requires
        spec_is_dev(environment),
    ensures
        spec_binary_path(environment, current_dir, component, triple) == spec_join(
            spec_join(current_dir, "binaries"@),
            spec_platform_identifier(component, triple),
        ),
        current_dir.len() > 0 && current_dir.last() != separator() && !is_rooted(component)
            ==> spec_binary_path(environment, current_dir, component, triple) == current_dir
            + "/binaries/"@ + component + seq!['-'] + triple,
{
    reveal_strlit("binaries");
    reveal_strlit("/binaries/");
    let name = spec_platform_identifier(component, triple);
    let directory = spec_external_binary_path(environment, current_dir);
    if current_dir.len() > 0 && current_dir.last() != separator() && !is_rooted(component) {
        assert(name[0] == (component + seq!['-'])[0]);
        assert(directory =~= current_dir.push(separator()) + "binaries"@);
        assert(directory.last() == 's');
        assert(directory.push(separator()) =~= current_dir + "/binaries/"@);
        assert(directory.push(separator()) + name =~= current_dir + "/binaries/"@ + component
            + seq!['-'] + triple);
    }
}

/// The broker's own executable, for a working directory that does not end in a
/// separator: `mosquitto-` and the triple, directly below the working directory
/// outside development mode and below its folder `binaries` in development mode.
pub proof fn lemma_broker_layout(environment: Option<&str>, current_dir: Seq<char>, triple: Seq<char>)
    requires
        current_dir.len() > 0,
        current_dir.last() != separator(),
    ensures
        !spec_is_dev(environment) ==> spec_binary_path(
            environment,
            current_dir,
            spec_component(),
            triple,
        ) == current_dir + "/mosquitto-"@ + triple,
        spec_is_dev(environment) ==> spec_binary_path(
            environment,
            current_dir,
            spec_component(),
            triple,
        ) == current_dir + "/binaries/mosquitto-"@ + triple,
{
    reveal_strlit("mosquitto");
    reveal_strlit("/mosquitto-");
    reveal_strlit("/binaries/");
    reveal_strlit("/binaries/mosquitto-");
    lemma_component_is_relative();
    if spec_is_dev(environment) {
        lemma_development_layout(environment, current_dir, spec_component(), triple);
        assert(current_dir + "/binaries/"@ + spec_component() + seq!['-'] + triple
            =~= current_dir + "/binaries/mosquitto-"@ + triple);
    } else {
        lemma_packaged_layout(environment, current_dir, spec_component(), triple);
        assert(current_dir + seq!['/'] + spec_component() + seq!['-'] + triple =~= current_dir
            + "/mosquitto-"@ + triple);
    }
}

/// The supervisor's last-observed status of the broker.
#[derive(Clone, Copy, PartialEq, Eq, Structural, Debug)]
pub enum MosquittoStateValues {
    Running,
    StoppedWithError,
    Stopped,
}

impl MosquittoStateValues {
    /// The text under which the state is shown.
    pub open spec fn label(self) -> Seq<char> {
        match self {
            MosquittoStateValues::Running => "RUNNING"@,
            MosquittoStateValues::StoppedWithError => "STOPPED_WITH_ERROR"@,
            MosquittoStateValues::Stopped => "STOPPED"@,
        }
    }

    /// Returns the text under which the state is shown.
    pub fn to_string(&self) -> (text: String)
        ensures
            text@ == self.label(),
    {
        match self {
            MosquittoStateValues::Running => String::from_str("RUNNING"),
            MosquittoStateValues::StoppedWithError => String::from_str("STOPPED_WITH_ERROR"),
            MosquittoStateValues::Stopped => String::from_str("STOPPED"),
        }
    }
}

/// What a supervisor holds: the handle of the process it tracks, if any, and the
/// state it reports. `H` is the type of a process handle.
pub struct MosquittoView<H> {
    pub process: Option<H>,
    pub state: MosquittoStateValues,
}

impl<H> MosquittoView<H> {
    /// A supervisor that has not tried to start the broker yet.
    pub open spec fn initial() -> Self {
        MosquittoView { process: None, state: MosquittoStateValues::Stopped }
    }

    /// The state is `Running` exactly when a process handle is held.
    pub open spec fn wf(self) -> bool {
        self.state == MosquittoStateValues::Running <==> self.process.is_some()
    }

    /// The supervisor after a start attempt whose spawn ended as `spawned`: the new
    /// handle and `Running` on success, no handle and `StoppedWithError` on failure.
    /// What was held before plays no part: the last attempt wins.
    pub open spec fn after_start(self, spawned: Result<H, String>) -> Self {
        match spawned {
            Ok(child) => MosquittoView {
                process: Some(child),
                state: MosquittoStateValues::Running,
            },
            Err(_) => MosquittoView {
                process: None,
                state: MosquittoStateValues::StoppedWithError,
            },
        }
    }
}

/// A supervisor that has not tried to start the broker reports `Stopped` and holds
/// no process handle.
pub proof fn lemma_initial_is_stopped<H>()
    ensures
        MosquittoView::<H>::initial().state == MosquittoStateValues::Stopped,
        MosquittoView::<H>::initial().process.is_none(),
        MosquittoView::<H>::initial().wf(),
{
}

/// After a start attempt whose spawn succeeded the state is `Running` and the new
/// process handle is held, whatever the supervisor held before.
pub proof fn lemma_start_success<H>(before: MosquittoView<H>, child: H)
    ensures
        before.after_start(Ok(child)).state == MosquittoStateValues::Running,
        before.after_start(Ok(child)).process == Some(child),
{
}

/// After a start attempt whose spawn failed the state is `StoppedWithError` and no
/// process handle is held, whatever the supervisor held before.
pub proof fn lemma_start_failure<H>(before: MosquittoView<H>, description: String)
    ensures
        before.after_start(Err(description)).state == MosquittoStateValues::StoppedWithError,
        before.after_start(Err(description)).process.is_none(),
{
}

/// A start attempt that follows a failed one is judged on its own outcome: if its
/// spawn succeeds, the state goes from `StoppedWithError` to `Running`.
pub proof fn lemma_start_again_after_failure<H>(
    before: MosquittoView<H>,
    description: String,
    child: H,
)
    ensures
        before.after_start(Err(description)).state == MosquittoStateValues::StoppedWithError,
        before.after_start(Err(description)).after_start(Ok(child)).state
            == MosquittoStateValues::Running,
        before.after_start(Err(description)).after_start(Ok(child)).process == Some(child),
{
}

/// The last attempt wins: what a start attempt leaves depends on its own outcome
/// alone, not on what the supervisor held before.
pub proof fn lemma_last_attempt_wins<H>(
    one: MosquittoView<H>,
    other: MosquittoView<H>,
    spawned: Result<H, String>,
)
    ensures
        one.after_start(spawned) == other.after_start(spawned),
{
}

/// Every start attempt leaves the state `Running` exactly when a process handle is
/// held, also when it begins from a supervisor of which that did not hold.
pub proof fn lemma_start_keeps_invariant<H>(before: MosquittoView<H>, spawned: Result<H, String>)
    ensures
        before.after_start(spawned).wf(),
{
}

/// The diagnostic line of a start attempt whose spawn ended as `spawned`. On
/// failure it carries the description of the operating system's error.
pub open spec fn spec_start_message<H>(spawned: Result<H, String>) -> Seq<char> {
    match spawned {
        Ok(_) => "Mosquitto started"@,
        Err(description) => "Error starting mosquitto: "@ + description@,
    }
}

/// Tracks at most one broker process and the outcome of the last start attempt.
pub struct Mosquitto<H> {
    process: Option<H>,
    state: MosquittoStateValues,
}

impl<H> View for Mosquitto<H> {
    type V = MosquittoView<H>;

    closed spec fn view(&self) -> MosquittoView<H> {
        MosquittoView { process: self.process, state: self.state }
    }
}

impl<H> Mosquitto<H> {
    #[verifier::type_invariant]
    spec fn tracks_running_process(self) -> bool {
        self@.wf()
    }

    /// Creates a supervisor with no process handle, in state `Stopped`.
    pub fn new() -> (supervisor: Mosquitto<H>)
        ensures
            supervisor@ == MosquittoView::<H>::initial(),
    {
        Mosquitto { process: None, state: MosquittoStateValues::Stopped }
    }

    /// Records the outcome of spawning the broker at its resolved path and returns
    /// the diagnostic line to emit. A failed spawn is absorbed into the state.
    pub fn start_mosquitto(&mut self, spawned: Result<H, String>) -> (message: String)
        ensures
            final(self)@ == old(self)@.after_start(spawned),
            message@ == spec_start_message(spawned),
    {
        match spawned {
            Ok(child) => {
                *self = Mosquitto { process: Some(child), state: MosquittoStateValues::Running };
                String::from_str("Mosquitto started")
            },
            Err(description) => {
                *self = Mosquitto { process: None, state: MosquittoStateValues::StoppedWithError };
                let mut message = String::from_str("Error starting mosquitto: ");
                message.append(description.as_str());
                message
            },
        }
    }

    /// Returns a copy of the current state and leaves the supervisor as it is. The
    /// state is `Running` exactly when a process handle is held.
    pub fn get_state(&self) -> (state: MosquittoStateValues)
        ensures
            state == self@.state,
            self@.wf(),
    {
        proof {
            use_type_invariant(self);
        }
        self.state
    }

    /// Returns the process handle that is held, if any.
    pub fn process(&self) -> (handle: Option<&H>)
        ensures
            handle.is_some() == self@.process.is_some(),
            handle.is_some() ==> *handle.unwrap() == self@.process.unwrap(),
            self@.wf(),
    {
        proof {
            use_type_invariant(self);
        }
        self.process.as_ref()
    }

    /// Tells whether a process handle is held.
    pub fn has_process(&self) -> (held: bool)
        ensures
            held == self@.process.is_some(),
            self@.wf(),
    {
        proof {
            use_type_invariant(self);
        }
        self.process.is_some()
    }
}

} // verus!
