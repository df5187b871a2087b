use vstd::prelude::*;
use vstd::string::StringExecFns;

verus! {

/// What a single attempt to spawn a detached process reported back.
///
/// The spawn itself is fire-and-forget: a `Launched` outcome means the
/// process was started, not that it ran to completion.
#[derive(Debug, Clone, Copy, PartialEq, Eq, Structural)]
pub enum SpawnOutcome {
    /// The process was spawned; the editor now runs on its own.
    Launched,
    /// The command was not found; the next fallback may be tried.
    NotFound,
    /// The spawn failed for any other reason (permissions, resources, ...);
    /// this is immediately fatal to the whole chain.
    Failed,
}

/// The platform families with a known terminal-editor invocation.
#[derive(Debug, Clone, Copy, PartialEq, Eq, Structural)]
pub enum Platform {
    Linux,
    MacOs,
}

/// Where the editor-launch fallback chain currently stands.
///
/// `TryGui`, `TryShellA` and `TryShellB` each name the attempt to make
/// next; the rest are terminal. A `NotFound` outcome moves the chain to
/// the next attempt, any other failure aborts it at once.
#[derive(Debug, Clone, Copy, PartialEq, Eq, Structural)]
pub enum LaunchState {
    /// Next attempt: the GUI editor command with the path as sole argument.
    TryGui,
    /// Next attempt: the primary shell running the terminal-editor invocation.
    TryShellA,
    /// Next attempt: the alternate shell with the alternate invocation.
    TryShellB,
    /// An attempt succeeded; the editor runs detached.
    Launched,
    /// A shell fallback was needed but the platform has no known invocation.
    Unsupported,
    /// An attempt failed with something other than not-found; the chain
    /// stops without trying further fallbacks.
    Aborted,
    /// The last fallback was also not found.
    Exhausted,
}

/// Whether the chain is finished in this state.
pub open spec fn is_terminal_spec(s: LaunchState) -> bool {
    match s {
        LaunchState::TryGui => false,
        LaunchState::TryShellA => false,
        LaunchState::TryShellB => false,
        LaunchState::Launched => true,
        LaunchState::Unsupported => true,
        LaunchState::Aborted => true,
        LaunchState::Exhausted => true,
    }
}

pub fn is_terminal(s: LaunchState) -> (b: bool)
    ensures
        b == is_terminal_spec(s),
{
    match s {
        LaunchState::TryGui => false,
        LaunchState::TryShellA => false,
        LaunchState::TryShellB => false,
        LaunchState::Launched => true,
        LaunchState::Unsupported => true,
        LaunchState::Aborted => true,
        LaunchState::Exhausted => true,
    }
}

/// The transition relation of the fallback chain: from the state whose
/// attempt was just made and the outcome of that attempt to the next
/// state. `supported` says whether the platform has a shell invocation to
/// fall back to. Terminal states do not move.
pub open spec fn advance_spec(s: LaunchState, o: SpawnOutcome, supported: bool) -> LaunchState {
    match s {
        LaunchState::TryGui => match o {
            SpawnOutcome::Launched => LaunchState::Launched,
            SpawnOutcome::NotFound => if supported {
                LaunchState::TryShellA
            } else {
                LaunchState::Unsupported
            },
            SpawnOutcome::Failed => LaunchState::Aborted,
        },
        LaunchState::TryShellA => match o {
            SpawnOutcome::Launched => LaunchState::Launched,
            SpawnOutcome::NotFound => LaunchState::TryShellB,
            SpawnOutcome::Failed => LaunchState::Aborted,
        },
        LaunchState::TryShellB => match o {
            SpawnOutcome::Launched => LaunchState::Launched,
            SpawnOutcome::NotFound => LaunchState::Exhausted,
            SpawnOutcome::Failed => LaunchState::Aborted,
        },
        _ => s,
    }
}

pub fn advance(s: LaunchState, o: SpawnOutcome, supported: bool) -> (r: LaunchState)
    ensures
        r == advance_spec(s, o, supported),
{
    match s {
        LaunchState::TryGui => match o {
            SpawnOutcome::Launched => LaunchState::Launched,
            SpawnOutcome::NotFound => if supported {
                LaunchState::TryShellA
            } else {
                LaunchState::Unsupported
            },
            SpawnOutcome::Failed => LaunchState::Aborted,
        },
        LaunchState::TryShellA => match o {
            SpawnOutcome::Launched => LaunchState::Launched,
            SpawnOutcome::NotFound => LaunchState::TryShellB,
            SpawnOutcome::Failed => LaunchState::Aborted,
        },
        LaunchState::TryShellB => match o {
            SpawnOutcome::Launched => LaunchState::Launched,
            SpawnOutcome::NotFound => LaunchState::Exhausted,
            SpawnOutcome::Failed => LaunchState::Aborted,
        },
        _ => s,
    }
}

/// The state the chain reaches from `s` after consuming the outcomes in
/// `outs` in order, stopping early at the first terminal state.
pub open spec fn run_chain(s: LaunchState, outs: Seq<SpawnOutcome>, supported: bool) -> LaunchState
    decreases outs.len(),
{
    if is_terminal_spec(s) || outs.len() == 0 {
        s
    } else {
        run_chain(advance_spec(s, outs[0], supported), outs.drop_first(), supported)
    }
}

/// The overall result the chain's final state stands for. A chain that
/// ran out of outcomes while an attempt was still pending counts as
/// exhausted: every attempt that was made had failed.
pub open spec fn chain_result(s: LaunchState) -> Result<(), crate::errors::Error> {
    match s {
        LaunchState::Launched => Ok(()),
        LaunchState::Unsupported => Err(crate::errors::Error::UnsupportedPlatform),
        _ => Err(crate::errors::Error::LaunchExhausted),
    }
}

pub fn launch_result(s: LaunchState) -> (r: Result<(), crate::errors::Error>)
    ensures
        r == chain_result(s),
{
    match s {
        LaunchState::Launched => Ok(()),
        LaunchState::Unsupported => Err(crate::errors::Error::UnsupportedPlatform),
        _ => Err(crate::errors::Error::LaunchExhausted),
    }
}

/// The platform the chain's shell fallbacks know, from the OS name as the
/// standard library reports it.
pub open spec fn platform_spec(os: Seq<char>) -> Option<Platform> {
    if os == "linux"@ {
        Some(Platform::Linux)
    } else if os == "macos"@ {
        Some(Platform::MacOs)
    } else {
        None
    }
}

pub fn platform_of(os: &str) -> (r: Option<Platform>)
    ensures
        r == platform_spec(os@),
{
    let o = os.to_owned();
    if o.eq(&String::from_str("linux")) {
        Some(Platform::Linux)
    } else if o.eq(&String::from_str("macos")) {
        Some(Platform::MacOs)
    } else {
        None
    }
}

/// The platform-strategy table entry: which shell runs the terminal-editor
/// invocation at each of the two fallback levels, and the invocation each
/// shell is handed.
pub struct PlatformPlan {
    pub shell_a: String,
    pub invocation_a: String,
    pub shell_b: String,
    pub invocation_b: String,
}

/// The fixed strategy table, looked up once per run.
pub fn plan_for(p: Platform) -> (r: PlatformPlan)
    ensures
        r.shell_a@ == "zsh"@,
        r.shell_b@ == "bash"@,
        p is Linux ==> r.invocation_a@ == "x-terminal-emulator -e nano $1"@,
        p is Linux ==> r.invocation_b@ == "gnome-terminal -- bash -c \"nano $1\""@,
        p is MacOs ==> r.invocation_a@ == "open -a Terminal nano $1"@,
        p is MacOs ==> r.invocation_b@ == "open -a Terminal nano $1"@,
{
    match p {
        Platform::Linux => PlatformPlan {
            shell_a: String::from_str("zsh"),
            invocation_a: String::from_str("x-terminal-emulator -e nano $1"),
            shell_b: String::from_str("bash"),
            invocation_b: String::from_str("gnome-terminal -- bash -c \"nano $1\""),
        },
        Platform::MacOs => PlatformPlan {
            shell_a: String::from_str("zsh"),
            invocation_a: String::from_str("open -a Terminal nano $1"),
            shell_b: String::from_str("bash"),
            invocation_b: String::from_str("open -a Terminal nano $1"),
        },
    }
}

/// A process invocation the caller should spawn, detached.
pub struct Command {
    pub program: String,
    pub args: Vec<String>,
}

/// The invocation the chain wants made in state `s`, or `None` when the
/// chain is finished (or a shell fallback is due but no plan exists, which
/// a supported-platform chain never reaches).
pub fn command_for(s: LaunchState, plan: &Option<PlatformPlan>, path: &str) -> (r: Option<
    Command,
>)
    ensures
        is_terminal_spec(s) ==> r is None,
        s is TryGui ==> (r matches Some(c) && c.program@ == "code"@ && c.args@.len() == 1
            && c.args@[0]@ == path@),
        s is TryShellA ==> (plan matches Some(pl) ==> (r matches Some(c) && c.program@
            == pl.shell_a@ && c.args@.len() == 4 && c.args@[0]@ == "-c"@ && c.args@[1]@
            == pl.invocation_a@ && c.args@[2]@ == path@ && c.args@[3]@ == path@)),
        s is TryShellB ==> (plan matches Some(pl) ==> (r matches Some(c) && c.program@
            == pl.shell_b@ && c.args@.len() == 4 && c.args@[0]@ == "-c"@ && c.args@[1]@
            == pl.invocation_b@ && c.args@[2]@ == path@ && c.args@[3]@ == path@)),
        (s is TryShellA || s is TryShellB) && plan is None ==> r is None,
{
    match s {
        LaunchState::TryGui => {
            let mut args: Vec<String> = Vec::new();
            args.push(path.to_owned());
            Some(Command { program: String::from_str("code"), args })
        },
        LaunchState::TryShellA => match plan {
            Some(pl) => {
                let mut args: Vec<String> = Vec::new();
                args.push(String::from_str("-c"));
                args.push(pl.invocation_a.clone());
                args.push(path.to_owned());
                args.push(path.to_owned());
                Some(Command { program: pl.shell_a.clone(), args })
            },
            None => None,
        },
        LaunchState::TryShellB => match plan {
            Some(pl) => {
                let mut args: Vec<String> = Vec::new();
                args.push(String::from_str("-c"));
                args.push(pl.invocation_b.clone());
                args.push(path.to_owned());
                args.push(path.to_owned());
                Some(Command { program: pl.shell_b.clone(), args })
            },
            None => None,
        },
        _ => None,
    }
}

/// A chain whose very first attempt fails with anything but not-found
/// aborts at once: no shell fallback is ever reached, whatever outcomes
/// would have followed and whether or not the platform is supported.
pub proof fn lemma_fatal_spawn_aborts(outs: Seq<SpawnOutcome>, supported: bool)
    requires
        outs.len() >= 1,
        outs[0] == SpawnOutcome::Failed,
    ensures
        run_chain(LaunchState::TryGui, outs, supported) == LaunchState::Aborted,
        chain_result(LaunchState::Aborted) == Err::<(), crate::errors::Error>(
            crate::errors::Error::LaunchExhausted,
        ),
{
    assert(advance_spec(LaunchState::TryGui, outs[0], supported) == LaunchState::Aborted);
    assert(run_chain(LaunchState::Aborted, outs.drop_first(), supported)
        == LaunchState::Aborted);
}

} // verus!
