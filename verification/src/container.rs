//! The container a game server runs in: how it is created, and what the answers of the
//! container engine mean for starting, stopping and tracking it.
use vstd::prelude::*;

use crate::branch::SERVER_IMAGE;
use crate::error::ArsaError;
use crate::ids::{spec_uuid_text, uuid_text};
use crate::responses::ServerStatusUpdates;
use crate::text::{concat2, decimal, push_string, spec_decimal, str_eq, strings_view};

verus! {

/// A command line parameter of the game server, as configured for a server.
#[derive(Debug)]
pub struct StartupParameter {
    pub parameter: String,
    pub tooltip: String,
    pub enabled: bool,
    /// `number`, `string` or `select`.
    pub param_type: String,
    /// The JSON text of the value, if the parameter has one.
    pub value: Option<String>,
    pub value_list: Option<Vec<String>>,
    pub min_val: Option<i32>,
    pub max_val: Option<i32>,
}

/// The arguments a parameter adds: nothing when disabled, else `-<name>` and the value's
/// JSON text when there is a value.
pub open spec fn spec_param_args(p: StartupParameter) -> Seq<Seq<char>> {
    if !p.enabled {
        seq![]
    } else {
        seq!["-"@ + p.parameter@] + match p.value {
            Some(v) => seq![v@],
            None => Seq::<Seq<char>>::empty(),
        }
    }
}

/// The arguments all parameters add, in order.
pub open spec fn spec_params_args(ps: Seq<StartupParameter>) -> Seq<Seq<char>>
    decreases ps.len(),
{
    if ps.len() == 0 {
        seq![]
    } else {
        spec_params_args(ps.drop_last()) + spec_param_args(ps.last())
    }
}

/// The command line of a server container: its configuration and profile directories,
/// then the enabled parameters.
pub open spec fn spec_container_args(ps: Seq<StartupParameter>) -> Seq<Seq<char>> {
    seq!["-config"@, "/ars/arsa/config/config.json"@, "-profile"@, "/ars/arsa/profiles/"@]
        + spec_params_args(ps)
}

/// A disabled parameter never reaches the command line: where every parameter is
/// disabled, the container runs with its configuration and profile arguments only.
pub proof fn lemma_disabled_parameters_ignored(ps: Seq<StartupParameter>)
    requires
        forall|i: int| 0 <= i < ps.len() ==> !(#[trigger] ps[i]).enabled,
    ensures
        spec_params_args(ps) == Seq::<Seq<char>>::empty(),
        spec_container_args(ps) == seq![
            "-config"@,
            "/ars/arsa/config/config.json"@,
            "-profile"@,
            "/ars/arsa/profiles/"@,
        ],
    decreases ps.len(),
{
    if ps.len() > 0 {
        let rest = ps.drop_last();
        assert forall|i: int| 0 <= i < rest.len() implies !(#[trigger] rest[i]).enabled by {
            assert(rest[i] == ps[i]);
        }
        lemma_disabled_parameters_ignored(rest);
        assert(!ps[ps.len() - 1].enabled);
        assert(spec_params_args(ps) =~= Seq::<Seq<char>>::empty());
    }
    assert(spec_container_args(ps) =~= seq![
        "-config"@,
        "/ars/arsa/config/config.json"@,
        "-profile"@,
        "/ars/arsa/profiles/"@,
    ]);
}

/// The arguments of parameters read one after the other are those of each part in turn.
proof fn lemma_params_args_concat(a: Seq<StartupParameter>, b: Seq<StartupParameter>)
    ensures
        spec_params_args(a + b) == spec_params_args(a) + spec_params_args(b),
    decreases b.len(),
{
    if b.len() == 0 {
        assert(a + b =~= a);
        assert(spec_params_args(a) + spec_params_args(b) =~= spec_params_args(a));
    } else {
        lemma_params_args_concat(a, b.drop_last());
        assert((a + b).drop_last() =~= a + b.drop_last());
        assert((a + b).last() == b.last());
        assert(spec_params_args(a) + spec_params_args(b) =~= spec_params_args(a)
            + spec_params_args(b.drop_last()) + spec_param_args(b.last()));
    }
}

/// Every enabled parameter reaches the command line, whatever its type: `-<name>` is on it,
/// and when the parameter has a value, the value's JSON text follows immediately.
pub proof fn lemma_enabled_parameter_on_command_line(ps: Seq<StartupParameter>, i: int)
    requires
        0 <= i < ps.len(),
        ps[i].enabled,
    ensures
        exists|j: int|
            #![trigger spec_container_args(ps)[j]]
            4 <= j < spec_container_args(ps).len() && spec_container_args(ps)[j] == "-"@
                + ps[i].parameter@ && (ps[i].value matches Some(v) ==> j + 1 < spec_container_args(
                ps,
            ).len() && spec_container_args(ps)[j + 1] == v@),
{
    let before = ps.subrange(0, i);
    let after = ps.subrange(i + 1, ps.len() as int);
    assert(ps =~= before + seq![ps[i]] + after);
    lemma_params_args_concat(before + seq![ps[i]], after);
    lemma_params_args_concat(before, seq![ps[i]]);
    assert(seq![ps[i]].drop_last() =~= Seq::<StartupParameter>::empty());
    assert(seq![ps[i]].last() == ps[i]);
    assert(spec_params_args(Seq::<StartupParameter>::empty()) == Seq::<Seq<char>>::empty());
    assert(Seq::<Seq<char>>::empty() + spec_param_args(ps[i]) =~= spec_param_args(ps[i]));
    assert(spec_params_args(seq![ps[i]]) =~= spec_param_args(ps[i]));
    let all = spec_container_args(ps);
    let j: int = 4 + spec_params_args(before).len() as int;
    assert(spec_params_args(ps) == spec_params_args(before) + spec_param_args(ps[i])
        + spec_params_args(after));
    assert(all[j] == spec_param_args(ps[i])[0]);
    if let Some(v) = ps[i].value {
        assert(all[j + 1] == spec_param_args(ps[i])[1]);
    }
}

/// The command line of a server container.
pub fn container_args(params: &Vec<StartupParameter>) -> (r: Vec<String>)
    ensures
        strings_view(r@) == spec_container_args(params@),
{
    let mut args: Vec<String> = Vec::new();
    push_string(&mut args, "-config".to_owned());
    push_string(&mut args, "/ars/arsa/config/config.json".to_owned());
    push_string(&mut args, "-profile".to_owned());
    push_string(&mut args, "/ars/arsa/profiles/".to_owned());
    let ghost head = strings_view(args@);
    proof {
        assert(head =~= seq![
            "-config"@,
            "/ars/arsa/config/config.json"@,
            "-profile"@,
            "/ars/arsa/profiles/"@,
        ]);
    }
    let mut i: usize = 0;
    while i < params.len()
        invariant
            i <= params@.len(),
            head == seq![
                "-config"@,
                "/ars/arsa/config/config.json"@,
                "-profile"@,
                "/ars/arsa/profiles/"@,
            ],
            strings_view(args@) == head + spec_params_args(params@.subrange(0, i as int)),
        decreases params@.len() - i,
    {
        let p = &params[i];
        let ghost before = strings_view(args@);
        proof {
            assert(params@.subrange(0, i + 1).drop_last() =~= params@.subrange(0, i as int));
        }
        if p.enabled {
            push_string(&mut args, concat2("-", p.parameter.as_str()));
            match &p.value {
                Some(v) => push_string(&mut args, v.clone()),
                None => {},
            }
        }
        proof {
            assert(strings_view(args@) =~= before + spec_param_args(params@[i as int]));
        }
        i = i + 1;
    }
    proof {
        assert(params@.subrange(0, params@.len() as int) =~= params@);
    }
    args
}

/// The container port of a game port: `<port>/udp`.
pub fn udp_port_key(port: u16) -> (r: String)
    ensures
        r@ == spec_decimal(port as nat) + "/udp"@,
{
    let d = decimal(port as u64);
    concat2(d.as_str(), "/udp")
}

/// A container port published on the same host port.
#[derive(Debug)]
pub struct PortBinding {
    pub container_port: String,
    pub host_port: String,
}

/// Everything the container of a server is created with, apart from the host directories
/// it mounts.
#[derive(Debug)]
pub struct ContainerPlan {
    pub name: String,
    pub hostname: String,
    pub image: String,
    pub cmd: Vec<String>,
    pub exposed_ports: Vec<String>,
    pub network: String,
    pub port_bindings: Vec<PortBinding>,
    /// Where the configuration directory is mounted, read only.
    pub config_mount_target: String,
    /// Where the profiles directory is mounted.
    pub profiles_mount_target: String,
}

/// A published game port as plain values.
pub open spec fn binding_view(b: PortBinding) -> (Seq<char>, Seq<char>) {
    (b.container_port@, b.host_port@)
}

/// The publication of a game port.
pub open spec fn spec_port_binding(port: u16) -> (Seq<char>, Seq<char>) {
    (spec_decimal(port as nat) + "/udp"@, spec_decimal(port as nat))
}

fn port_binding(port: u16) -> (r: PortBinding)
    ensures
        binding_view(r) == spec_port_binding(port),
{
    PortBinding { container_port: udp_port_key(port), host_port: decimal(port as u64) }
}

/// The container of server `id`: named and hosted as the server's UUID, running the server
/// image with the server's command line, publishing the game, query and remote console
/// ports over UDP on the bridge network.
pub fn plan_server_container(
    id: u128,
    bind_port: u16,
    a2s_port: u16,
    rcon_port: u16,
    params: &Vec<StartupParameter>,
) -> (r: ContainerPlan)
    ensures
        r.name@ == spec_uuid_text(id),
        r.hostname@ == spec_uuid_text(id),
        r.image@ == SERVER_IMAGE@,
        strings_view(r.cmd@) == spec_container_args(params@),
        strings_view(r.exposed_ports@) == seq!["17777/udp"@],
        r.network@ == "bridge"@,
        r.port_bindings@.map_values(|b: PortBinding| binding_view(b)) == seq![
            spec_port_binding(bind_port),
            spec_port_binding(a2s_port),
            spec_port_binding(rcon_port),
        ],
        r.config_mount_target@ == "/ars/arsa/config"@,
        r.profiles_mount_target@ == "/ars/arsa/profiles"@,
{
    let mut exposed: Vec<String> = Vec::new();
    push_string(&mut exposed, "17777/udp".to_owned());
    proof {
        assert(strings_view(exposed@) =~= seq!["17777/udp"@]);
    }
    let mut bindings: Vec<PortBinding> = Vec::new();
    bindings.push(port_binding(bind_port));
    bindings.push(port_binding(a2s_port));
    bindings.push(port_binding(rcon_port));
    proof {
        assert(bindings@.map_values(|b: PortBinding| binding_view(b)) =~= seq![
            spec_port_binding(bind_port),
            spec_port_binding(a2s_port),
            spec_port_binding(rcon_port),
        ]);
    }
    ContainerPlan {
        name: uuid_text(id),
        hostname: uuid_text(id),
        image: SERVER_IMAGE.to_owned(),
        cmd: container_args(params),
        exposed_ports: exposed,
        network: "bridge".to_owned(),
        port_bindings: bindings,
        config_mount_target: "/ars/arsa/config".to_owned(),
        profiles_mount_target: "/ars/arsa/profiles".to_owned(),
    }
}

/// The states the container engine reports for a container.
#[derive(Debug, Clone, Copy, PartialEq, Eq, Structural)]
pub enum ContainerStatus {
    Empty,
    Created,
    Running,
    Paused,
    Restarting,
    Removing,
    Exited,
    Dead,
}

/// What inspecting a server's container gave.
#[derive(Debug)]
pub enum InspectOutcome {
    /// The container exists; its state, if reported.
    Found(Option<ContainerStatus>),
    /// The engine answered 404: there is no such container.
    Missing,
    /// Any other failure, with its message.
    Failed(String),
}

/// What starting a server has to do.
#[derive(Debug, Clone, Copy, PartialEq, Eq, Structural)]
pub enum StartAction {
    /// The container runs or restarts already: nothing to do.
    AlreadyRunning,
    /// Start the existing container.
    Start,
    /// Create the container, then start it.
    CreateAndStart,
}

/// What to do to start a server, given what inspecting its container gave.
pub fn start_plan(outcome: InspectOutcome) -> (r: Result<StartAction, ArsaError>)
    ensures
        match outcome {
            InspectOutcome::Found(Some(s)) => if s == ContainerStatus::Running || s
                == ContainerStatus::Restarting {
                r == Ok::<StartAction, ArsaError>(StartAction::AlreadyRunning)
            } else {
                r == Ok::<StartAction, ArsaError>(StartAction::Start)
            },
            InspectOutcome::Found(None) => r == Ok::<StartAction, ArsaError>(StartAction::Start),
            InspectOutcome::Missing => r == Ok::<StartAction, ArsaError>(StartAction::CreateAndStart),
            InspectOutcome::Failed(m) => r == Err::<StartAction, ArsaError>(ArsaError::BollardError(m)),
        },
{
    match outcome {
        InspectOutcome::Found(Some(s)) => {
            if s == ContainerStatus::Running || s == ContainerStatus::Restarting {
                Ok(StartAction::AlreadyRunning)
            } else {
                Ok(StartAction::Start)
            }
        },
        InspectOutcome::Found(None) => Ok(StartAction::Start),
        InspectOutcome::Missing => Ok(StartAction::CreateAndStart),
        InspectOutcome::Failed(m) => Err(ArsaError::BollardError(m)),
    }
}

/// What stopping a server's container gave.
#[derive(Debug)]
pub enum StopOutcome {
    Stopped,
    /// The engine answered 404: there is no such container.
    Missing,
    /// Any other failure, with its message.
    Failed(String),
}

/// What stopping a server has to do next.
#[derive(Debug, Clone, Copy, PartialEq, Eq, Structural)]
pub enum StopAction {
    /// There is no container: record the server as stopped.
    MarkStopped,
    /// Read the container's state back and record it.
    RefreshRunning,
}

/// What to do after asking the engine to stop a server's container.
pub fn stop_plan(outcome: StopOutcome) -> (r: Result<StopAction, ArsaError>)
    ensures
        match outcome {
            StopOutcome::Stopped => r == Ok::<StopAction, ArsaError>(StopAction::RefreshRunning),
            StopOutcome::Missing => r == Ok::<StopAction, ArsaError>(StopAction::MarkStopped),
            StopOutcome::Failed(m) => r == Err::<StopAction, ArsaError>(ArsaError::BollardError(m)),
        },
{
    match outcome {
        StopOutcome::Stopped => Ok(StopAction::RefreshRunning),
        StopOutcome::Missing => Ok(StopAction::MarkStopped),
        StopOutcome::Failed(m) => Err(ArsaError::BollardError(m)),
    }
}

/// The update to broadcast when a server's running state is read: none when it did not
/// change, else the new state of the server.
pub fn running_change(id: u128, stored: bool, actual: bool) -> (r: Option<ServerStatusUpdates>)
    ensures
        stored == actual ==> r is None,
        stored != actual ==> (r matches Some(ServerStatusUpdates::IsRunningUpdate { uuid, is_running })
            && uuid@ == spec_uuid_text(id) && is_running == actual),
{
    if stored == actual {
        None
    } else {
        Some(ServerStatusUpdates::IsRunningUpdate { uuid: uuid_text(id), is_running: actual })
    }
}

/// Whether a container listed at startup counts as running: its status reads `running` or
/// `restarting`.
pub fn listed_container_running(status: &str) -> (r: bool)
    ensures
        r == (status@ == "running"@ || status@ == "restarting"@),
{
    str_eq(status, "running") || str_eq(status, "restarting")
}

/// The running state a container event reports: `start` means running, `die` means
/// stopped, anything else says nothing.
pub fn event_running_state(action: &str) -> (r: Option<bool>)
    ensures
        action@ == "start"@ ==> r == Some(true),
        action@ == "die"@ ==> r == Some(false),
        action@ != "start"@ && action@ != "die"@ ==> r is None,
{
    proof {
        reveal_strlit("start");
        reveal_strlit("die");
        assert("start"@.len() != "die"@.len());
    }
    if str_eq(action, "start") {
        Some(true)
    } else if str_eq(action, "die") {
        Some(false)
    } else {
        None
    }
}

} // verus!
