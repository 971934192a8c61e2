//! The smart-home fulfillment adapter: which devices an EXECUTE request
//! reaches, and how the devices' replies are reported back.
#![allow(non_snake_case)]

use vstd::prelude::*;

verus! {

/// A device named in a request.
pub struct DeviceData {
    pub id: String,
}

/// A colour as a packed RGB value.
#[derive(Debug, PartialEq, Eq, Structural, Clone, Copy)]
pub struct Color {
    pub spectrumRGB: i32,
}

/// The parameters of one execution.
pub struct Params {
    pub on: Option<bool>,
    pub color: Option<Color>,
    pub brightness: Option<i32>,
}

/// One execution of a command: its name and parameters.
pub struct Execution {
    pub command: String,
    pub params: Params,
}

/// A command: the devices it targets and what to execute on them.
pub struct Command {
    pub devices: Vec<DeviceData>,
    pub execution: Vec<Execution>,
}

/// The reported state of a light.
pub struct LightState {
    pub online: bool,
    pub on: Option<bool>,
    pub brightness: Option<i32>,
    pub color: Option<Color>,
}

/// The reported state of a heater.
pub struct HeaterState {
    pub online: bool,
    pub on: bool,
    pub temp: Option<i32>,
}

/// The reported state of a device.
pub enum States {
    Light(LightState),
    Heater(HeaterState),
}

/// The result of a command for a group of devices.
pub struct CommandsResponse {
    pub ids: Vec<String>,
    pub status: String,
    pub states: Option<States>,
    pub errorCode: Option<String>,
}

/// The payload of an EXECUTE response.
pub struct ExecutePayload {
    pub commands: Vec<CommandsResponse>,
}

/// A response to the smart-home platform.
pub struct GoogleResponse<T> {
    pub requestId: String,
    pub payload: T,
}

/// The text of each string.
pub open spec fn texts(v: Seq<String>) -> Seq<Seq<char>> {
    v.map_values(|s: String| s@)
}

/// The identifiers of the devices named.
pub open spec fn device_ids(ds: Seq<DeviceData>) -> Seq<Seq<char>> {
    ds.map_values(|d: DeviceData| d.id@)
}

/// The identifiers of `ids` that are among `owned`, in order.
pub open spec fn owned_only(ids: Seq<Seq<char>>, owned: Seq<Seq<char>>) -> Seq<Seq<char>>
    decreases ids.len(),
{
    if ids.len() == 0 {
        Seq::empty()
    } else {
        let rest = owned_only(ids.drop_last(), owned);
        if owned.contains(ids.last()) {
            rest.push(ids.last())
        } else {
            rest
        }
    }
}

/// Whether `id` is among `owned`.
fn contains_id(owned: &Vec<String>, id: &String) -> (r: bool)
    ensures
        r == texts(owned@).contains(id@),
{
    let mut i: usize = 0;
    while i < owned.len()
        invariant
            0 <= i <= owned.len(),
            forall|j: int| 0 <= j < i ==> owned@[j]@ != id@,
        decreases owned.len() - i,
    {
        if owned[i] == *id {
            assert(texts(owned@)[i as int] == id@);
            return true;
        }
        i = i + 1;
    }
    proof {
        if texts(owned@).contains(id@) {
            let k = choose|k: int| 0 <= k < texts(owned@).len() && texts(owned@)[k] == id@;
            assert(owned@[k]@ == id@);
        }
    }
    false
}

/// The devices of `devices` that belong to the user, whose devices are
/// `owned`; a command is sent to these only.
pub fn owned_targets(devices: &Vec<DeviceData>, owned: &Vec<String>) -> (r: Vec<String>)
    ensures
        texts(r@) == owned_only(device_ids(devices@), texts(owned@)),
{
    let mut r: Vec<String> = Vec::new();
    let mut i: usize = 0;
    while i < devices.len()
        invariant
            0 <= i <= devices.len(),
            texts(r@) == owned_only(device_ids(devices@).take(i as int), texts(owned@)),
        decreases devices.len() - i,
    {
        let ghost prefix = device_ids(devices@).take(i as int + 1);
        assert(prefix.drop_last() =~= device_ids(devices@).take(i as int));
        assert(prefix.last() == devices@[i as int].id@);
        if contains_id(owned, &devices[i].id) {
            r.push(devices[i].id.clone());
            assert(texts(r@) =~= owned_only(device_ids(devices@).take(i as int), texts(owned@)).push(
                devices@[i as int].id@,
            ));
        }
        i = i + 1;
    }
    assert(device_ids(devices@).take(devices.len() as int) =~= device_ids(devices@));
    r
}

/// The devices whose reply was in `accepted` (an empty reply) or not (a
/// non-empty reply); a device that could not be reached (`None`) is in
/// neither list.
pub open spec fn replied(replies: Seq<(Seq<char>, Option<usize>)>, accepted: bool) -> Seq<Seq<char>>
    decreases replies.len(),
{
    if replies.len() == 0 {
        Seq::empty()
    } else {
        let rest = replied(replies.drop_last(), accepted);
        match replies.last().1 {
            Some(n) => if (n == 0) == accepted {
                rest.push(replies.last().0)
            } else {
                rest
            },
            None => rest,
        }
    }
}

/// The text of each reply.
pub open spec fn replies_text(replies: Seq<(String, Option<usize>)>) -> Seq<(Seq<char>, Option<usize>)> {
    replies.map_values(|p: (String, Option<usize>)| (p.0@, p.1))
}

/// Reports the replies of the devices to an OnOff command: first the
/// devices that took it (an empty reply), as switched on, then those that
/// refused it (a non-empty reply), as offline. Each reply pairs a device
/// with the length of its reply, or `None` when it could not be reached.
pub fn on_off_responses(replies: &Vec<(String, Option<usize>)>) -> (r: Vec<CommandsResponse>)
    ensures
        r.len() == 2,
        texts(r[0].ids@) == replied(replies_text(replies@), true),
        r[0].status@ == "SUCCESS"@,
        r[0].states matches Some(States::Light(s)) && s.online && s.on == Some(true) && s.brightness
            is None && s.color is None,
        r[0].errorCode is None,
        texts(r[1].ids@) == replied(replies_text(replies@), false),
        r[1].status@ == "ERROR"@,
        r[1].states is None,
        r[1].errorCode matches Some(c) && c@ == "deviceOffline"@,
{
    let mut ok: Vec<String> = Vec::new();
    let mut failed: Vec<String> = Vec::new();
    let mut i: usize = 0;
    while i < replies.len()
        invariant
            0 <= i <= replies.len(),
            texts(ok@) == replied(replies_text(replies@).take(i as int), true),
            texts(failed@) == replied(replies_text(replies@).take(i as int), false),
        decreases replies.len() - i,
    {
        let ghost prefix = replies_text(replies@).take(i as int + 1);
        assert(prefix.drop_last() =~= replies_text(replies@).take(i as int));
        assert(prefix.last() == (replies@[i as int].0@, replies@[i as int].1));
        match replies[i].1 {
            None => {},
            Some(n) => {
                if n == 0 {
                    ok.push(replies[i].0.clone());
                    assert(texts(ok@) =~= replied(replies_text(replies@).take(i as int), true).push(
                        replies@[i as int].0@,
                    ));
                } else {
                    failed.push(replies[i].0.clone());
                    assert(texts(failed@) =~= replied(replies_text(replies@).take(i as int), false).push(
                        replies@[i as int].0@,
                    ));
                }
            },
        }
        i = i + 1;
    }
    assert(replies_text(replies@).take(replies.len() as int) =~= replies_text(replies@));
    let success = CommandsResponse {
        ids: ok,
        status: String::from_str("SUCCESS"),
        states: Some(
            States::Light(LightState { online: true, on: Some(true), brightness: None, color: None }),
        ),
        errorCode: None,
    };
    let failure = CommandsResponse {
        ids: failed,
        status: String::from_str("ERROR"),
        states: None,
        errorCode: Some(String::from_str("deviceOffline")),
    };
    let mut r: Vec<CommandsResponse> = Vec::new();
    r.push(success);
    r.push(failure);
    r
}

/// Whether an execution switches devices on or off.
pub open spec fn is_on_off_spec(e: Execution) -> bool {
    e.command@ == "action.devices.commands.OnOff"@
}

/// Whether an execution switches devices on or off; other executions are
/// not carried out.
pub fn is_on_off(e: &Execution) -> (r: bool)
    ensures
        r == is_on_off_spec(*e),
{
    let name: String = String::from_str("action.devices.commands.OnOff");
    e.command == name
}

/// For each OnOff execution of `execs`, in order, the group `targets`.
pub open spec fn execution_groups(execs: Seq<Execution>, targets: Seq<Seq<char>>) -> Seq<Seq<Seq<char>>>
    decreases execs.len(),
{
    if execs.len() == 0 {
        Seq::empty()
    } else {
        let rest = execution_groups(execs.drop_last(), targets);
        if is_on_off_spec(execs.last()) {
            rest.push(targets)
        } else {
            rest
        }
    }
}

/// For each command in order, one group of owned targets per OnOff execution.
pub open spec fn execute_groups(cmds: Seq<Command>, owned: Seq<Seq<char>>) -> Seq<Seq<Seq<char>>>
    decreases cmds.len(),
{
    if cmds.len() == 0 {
        Seq::empty()
    } else {
        execute_groups(cmds.drop_last(), owned) + execution_groups(
            cmds.last().execution@,
            owned_only(device_ids(cmds.last().devices@), owned),
        )
    }
}

/// The text of each group of identifiers.
pub open spec fn groups_text(v: Seq<Vec<String>>) -> Seq<Seq<Seq<char>>> {
    v.map_values(|g: Vec<String>| texts(g@))
}

/// Plans an EXECUTE request of a user whose devices are `owned`: for each
/// OnOff execution of each command, the owned devices the command targets,
/// which are to be sent the switch; other executions are skipped.
pub fn plan_execute(commands: &Vec<Command>, owned: &Vec<String>) -> (r: Vec<Vec<String>>)
    ensures
        groups_text(r@) == execute_groups(commands@, texts(owned@)),
{
    let mut r: Vec<Vec<String>> = Vec::new();
    let mut i: usize = 0;
    while i < commands.len()
        invariant
            0 <= i <= commands.len(),
            groups_text(r@) == execute_groups(commands@.take(i as int), texts(owned@)),
        decreases commands.len() - i,
    {
        let command = &commands[i];
        let targets = owned_targets(&command.devices, owned);
        let ghost base = groups_text(r@);
        let ghost tg = texts(targets@);
        let mut k: usize = 0;
        while k < command.execution.len()
            invariant
                0 <= k <= command.execution.len(),
                command == commands@[i as int],
                texts(targets@) == tg,
                groups_text(r@) == base + execution_groups(command.execution@.take(k as int), tg),
            decreases command.execution.len() - k,
        {
            assert(command.execution@.take(k as int + 1).drop_last() =~= command.execution@.take(k as int));
            if is_on_off(&command.execution[k]) {
                r.push(targets.clone());
                assert(groups_text(r@) =~= (base + execution_groups(command.execution@.take(k as int), tg)).push(tg));
            }
            k = k + 1;
        }
        assert(command.execution@.take(command.execution.len() as int) =~= command.execution@);
        assert(commands@.take(i as int + 1).drop_last() =~= commands@.take(i as int));
        i = i + 1;
    }
    assert(commands@.take(commands.len() as int) =~= commands@);
    r
}

/// The EXECUTE response: the reports of all commands, in order.
pub fn execute_response(request_id: String, commands: Vec<CommandsResponse>) -> (r: GoogleResponse<ExecutePayload>)
    ensures
        r.requestId@ == request_id@,
        r.payload.commands@ == commands@,
{
    GoogleResponse { requestId: request_id, payload: ExecutePayload { commands } }
}

} // verus!
