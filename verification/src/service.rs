//! Decisions of the backend's threads: the core thread, which routes the
//! frontend's commands to the loader, and the loader thread, which reads
//! chunks, forwards them to the decoder and applies loader commands.

use vstd::prelude::*;
use crate::ports::BackendCommand;

verus! {

/// A command for the loader thread.
#[derive(Debug)]
pub enum LoaderCmd {
    /// Load from this URL.
    SetUrl(String),
    /// Stop loading.
    Stop,
}

/// What the core thread does with a command from the frontend.
#[derive(Debug)]
pub enum CoreAction {
    /// Send this command to the loader thread and wait for the next command.
    Forward(LoaderCmd),
    /// Return; dropping the loader's command channel stops the other threads
    /// in turn.
    Exit,
}

/// Routes one command of the frontend: a URL to play becomes a URL for the
/// loader, a stop becomes a stop, and a shutdown ends the core thread.
pub fn core_step(cmd: BackendCommand) -> (a: CoreAction)
    ensures
        a == core_action(cmd),
{
    match cmd {
        BackendCommand::PlayUrl(url) => CoreAction::Forward(LoaderCmd::SetUrl(url)),
        BackendCommand::StopPlayback => CoreAction::Forward(LoaderCmd::Stop),
        BackendCommand::Shutdown => CoreAction::Exit,
    }
}

/// The URL that the loader is set to when it applies a command.
pub open spec fn url_after(cmd: LoaderCmd) -> Option<String> {
    match cmd {
        LoaderCmd::SetUrl(url) => Some(url),
        LoaderCmd::Stop => None,
    }
}

/// What the loader thread learned from its last outside operation.
#[derive(Debug)]
pub enum LoaderEvent {
    /// `read_chunk` gave a chunk.
    ChunkRead,
    /// `read_chunk` found no stream to read from.
    NoStream,
    /// `read_chunk` failed.
    ReadFailed,
    /// Polling the command channel without waiting gave this (`None`: no
    /// command was waiting).
    Polled(Option<LoaderCmd>),
    /// Waiting on the command channel gave this command.
    Received(LoaderCmd),
    /// The command channel is closed.
    CommandsClosed,
}

/// What the loader thread does next.
#[derive(Debug)]
pub enum LoaderAction {
    /// Send the chunk to the decoder, then poll the command channel.
    ForwardChunkThenPoll,
    /// Block on the command channel until a command arrives.
    WaitForCommand,
    /// Set the loader's URL to this, then read the next chunk.
    ApplyUrl(Option<String>),
    /// Read the next chunk.
    ReadNext,
    /// End the loader thread.
    Terminate,
}

/// One decision of the loader thread. A chunk is forwarded and then the
/// commands are polled; with no stream the thread waits for a command; every
/// command received is applied to the loader; a failed read or a closed
/// command channel ends the thread.
pub fn loader_step(event: LoaderEvent) -> (a: LoaderAction)
    ensures
        a == loader_action(event),
        event == LoaderEvent::Polled(Some(LoaderCmd::Stop)) ==> a == LoaderAction::ApplyUrl(None),
        event == LoaderEvent::Received(LoaderCmd::Stop) ==> a == LoaderAction::ApplyUrl(None),
        forall|u: String| event == LoaderEvent::Polled(Some(LoaderCmd::SetUrl(u)))
            ==> a == LoaderAction::ApplyUrl(Some(u)),
        forall|u: String| event == LoaderEvent::Received(LoaderCmd::SetUrl(u))
            ==> a == LoaderAction::ApplyUrl(Some(u)),
{
    match event {
        LoaderEvent::ChunkRead => LoaderAction::ForwardChunkThenPoll,
        LoaderEvent::NoStream => LoaderAction::WaitForCommand,
        LoaderEvent::ReadFailed => LoaderAction::Terminate,
        LoaderEvent::Polled(None) => LoaderAction::ReadNext,
        LoaderEvent::Polled(Some(cmd)) => LoaderAction::ApplyUrl(apply_command(cmd)),
        LoaderEvent::Received(cmd) => LoaderAction::ApplyUrl(apply_command(cmd)),
        LoaderEvent::CommandsClosed => LoaderAction::Terminate,
    }
}

/// The URL a loader command sets.
pub fn apply_command(cmd: LoaderCmd) -> (url: Option<String>)
    ensures
        url == url_after(cmd),
{
    match cmd {
        LoaderCmd::SetUrl(url) => Some(url),
        LoaderCmd::Stop => None,
    }
}

/// A command of the frontend that reaches the loader sets it to the URL the
/// frontend asked for, or to none for a stop; a shutdown never reaches it.
pub proof fn lemma_commands_reach_loader(cmd: BackendCommand)
    ensures
        match cmd {
            BackendCommand::PlayUrl(url) => exists|l: LoaderCmd|
                core_action(cmd) == CoreAction::Forward(l) && url_after(l) == Some(url),
            BackendCommand::StopPlayback => exists|l: LoaderCmd|
                core_action(cmd) == CoreAction::Forward(l) && url_after(l) == None::<String>,
            BackendCommand::Shutdown => core_action(cmd) == CoreAction::Exit,
        },
{
    match cmd {
        BackendCommand::PlayUrl(url) => {
            assert(url_after(LoaderCmd::SetUrl(url)) == Some(url));
        },
        BackendCommand::StopPlayback => {
            assert(url_after(LoaderCmd::Stop) == None::<String>);
        },
        BackendCommand::Shutdown => {},
    }
}

/// The decision of the loader thread on an event, as `loader_step` computes
/// it.
pub open spec fn loader_action(event: LoaderEvent) -> LoaderAction {
    match event {
        LoaderEvent::ChunkRead => LoaderAction::ForwardChunkThenPoll,
        LoaderEvent::NoStream => LoaderAction::WaitForCommand,
        LoaderEvent::ReadFailed => LoaderAction::Terminate,
        LoaderEvent::Polled(None) => LoaderAction::ReadNext,
        LoaderEvent::Polled(Some(cmd)) => LoaderAction::ApplyUrl(url_after(cmd)),
        LoaderEvent::Received(cmd) => LoaderAction::ApplyUrl(url_after(cmd)),
        LoaderEvent::CommandsClosed => LoaderAction::Terminate,
    }
}

/// The loader thread with no stream blocks on the command channel instead
/// of reading; the command it then receives sets its URL (a URL to play, or
/// none for a stop) before it reads again. The thread ends exactly when a
/// read fails or the command channel is closed, and a read chunk is always
/// forwarded before any command is looked at.
pub proof fn lemma_loader_thread_decisions(cmd: LoaderCmd, event: LoaderEvent)
    ensures
        loader_action(LoaderEvent::NoStream) == LoaderAction::WaitForCommand,
        loader_action(LoaderEvent::Received(cmd)) == LoaderAction::ApplyUrl(url_after(cmd)),
        cmd matches LoaderCmd::SetUrl(u) ==> url_after(cmd) == Some(u),
        cmd is Stop ==> url_after(cmd) == None::<String>,
        loader_action(LoaderEvent::ChunkRead) == LoaderAction::ForwardChunkThenPoll,
        (loader_action(event) == LoaderAction::Terminate) <==> (event is ReadFailed || event is CommandsClosed),
{
}

/// The action of the core thread on a command, as `core_step` computes it.
pub open spec fn core_action(cmd: BackendCommand) -> CoreAction {
    match cmd {
        BackendCommand::PlayUrl(url) => CoreAction::Forward(LoaderCmd::SetUrl(url)),
        BackendCommand::StopPlayback => CoreAction::Forward(LoaderCmd::Stop),
        BackendCommand::Shutdown => CoreAction::Exit,
    }
}

/// The loader commands that the core thread sends when it receives
/// `cmds` in order: it forwards each command and stops at the first
/// shutdown.
pub open spec fn core_run(cmds: Seq<BackendCommand>) -> Seq<LoaderCmd>
    decreases cmds.len(),
{
    if cmds.len() == 0 {
        Seq::empty()
    } else {
        match core_action(cmds[0]) {
            CoreAction::Forward(l) => seq![l] + core_run(cmds.drop_first()),
            CoreAction::Exit => Seq::empty(),
        }
    }
}

/// The loader command for a command that is not a shutdown.
pub open spec fn loader_command_for(cmd: BackendCommand) -> LoaderCmd {
    match cmd {
        BackendCommand::PlayUrl(url) => LoaderCmd::SetUrl(url),
        _ => LoaderCmd::Stop,
    }
}

/// The core thread forwards, in order, exactly the commands received before
/// the first shutdown, a URL to play as that URL and a stop as a stop; it
/// receives nothing after the shutdown.
pub proof fn lemma_core_forwards_until_shutdown(cmds: Seq<BackendCommand>)
    ensures
        core_run(cmds).len() <= cmds.len(),
        forall|i: int| 0 <= i < core_run(cmds).len() ==> !(cmds[i] is Shutdown)
            && #[trigger] core_run(cmds)[i] == loader_command_for(cmds[i]),
        core_run(cmds).len() < cmds.len() ==> cmds[core_run(cmds).len() as int] is Shutdown,
    decreases cmds.len(),
{
    if cmds.len() > 0 {
        let rest = cmds.drop_first();
        lemma_core_forwards_until_shutdown(rest);
        match core_action(cmds[0]) {
            CoreAction::Forward(l) => {
                let run = core_run(cmds);
                assert(run == seq![l] + core_run(rest));
                assert forall|i: int| 0 <= i < run.len() implies !(cmds[i] is Shutdown)
                    && #[trigger] run[i] == loader_command_for(cmds[i]) by {
                    if i > 0 {
                        assert(run[i] == core_run(rest)[i - 1]);
                        assert(cmds[i] == rest[i - 1]);
                    }
                }
                if run.len() < cmds.len() {
                    assert(cmds[run.len() as int] == rest[core_run(rest).len() as int]);
                }
            },
            CoreAction::Exit => {},
        }
    }
}

/// A command is applied alike whether the loader thread finds it by
/// polling after forwarding a chunk or receives it while waiting with no
/// stream: a URL to play sets that URL, and a stop sets none, so loading
/// stops. No command found by polling is dropped.
pub proof fn lemma_polled_commands_are_applied(cmd: LoaderCmd)
    ensures
        loader_action(LoaderEvent::Polled(Some(cmd))) == loader_action(LoaderEvent::Received(cmd)),
        loader_action(LoaderEvent::Polled(Some(LoaderCmd::Stop))) == LoaderAction::ApplyUrl(None),
        loader_action(LoaderEvent::Received(LoaderCmd::Stop)) == LoaderAction::ApplyUrl(None),
        forall|u: String| loader_action(LoaderEvent::Polled(Some(LoaderCmd::SetUrl(u))))
            == LoaderAction::ApplyUrl(Some(u)),
        !(loader_action(LoaderEvent::Polled(Some(cmd))) is ReadNext),
{
}

} // verus!
