use vstd::prelude::*;
use crate::error::Error;

verus! {

/// One OS command: a program and its arguments.
#[derive(Debug)]
pub struct DeviceCommand {
    pub program: String,
    pub args: Vec<String>,
}

/// The words of a command line, program first.
pub open spec fn argv(c: DeviceCommand) -> Seq<Seq<char>> {
    seq![c.program@] + c.args@.map_values(|a: String| a@)
}

pub open spec fn link_argv(name: Seq<char>, state: Seq<char>) -> Seq<Seq<char>> {
    seq!["ip"@, "link"@, "set"@, "dev"@, name, state]
}

pub open spec fn addr_argv(verb: Seq<char>, address: Seq<char>, name: Seq<char>) -> Seq<Seq<char>> {
    seq!["ip"@, "addr"@, verb, address, "dev"@, name]
}

pub open spec fn route_argv(verb: Seq<char>, route: Seq<char>, name: Seq<char>) -> Seq<Seq<char>> {
    seq!["ip"@, "route"@, verb, route, "dev"@, name]
}

pub open spec fn forwarding_argv(value: Seq<char>) -> Seq<Seq<char>> {
    seq!["sysctl"@, "-w"@, "net.ipv4.ip_forward="@ + value]
}

impl DeviceCommand {
    /// A field-for-field copy.
    pub fn duplicate(&self) -> (r: DeviceCommand)
        ensures
            r.program == self.program,
            r.args@ == self.args@,
    {
        let mut args: Vec<String> = Vec::new();
        let mut i: usize = 0;
        while i < self.args.len()
            invariant
                i <= self.args.len(),
                args@ == self.args@.take(i as int),
            decreases self.args.len() - i,
        {
            args.push(self.args[i].clone());
            assert(args@ =~= self.args@.take(i + 1));
            i = i + 1;
        }
        assert(args@ =~= self.args@);
        DeviceCommand { program: self.program.clone(), args }
    }
}

fn text(s: &str) -> (r: String)
    ensures
        r@ == s@,
{
    s.to_owned()
}

fn command6(
    program: &str,
    a1: &str,
    a2: &str,
    a3: &str,
    a4: &str,
    a5: &str,
) -> (r: DeviceCommand)
    ensures
        argv(r) == seq![program@, a1@, a2@, a3@, a4@, a5@],
{
    let mut args: Vec<String> = Vec::new();
    args.push(text(a1));
    args.push(text(a2));
    args.push(text(a3));
    args.push(text(a4));
    args.push(text(a5));
    let r = DeviceCommand { program: text(program), args };
    assert(argv(r) =~= seq![program@, a1@, a2@, a3@, a4@, a5@]);
    r
}

fn sysctl_command(value: &str) -> (r: DeviceCommand)
    ensures
        argv(r) == forwarding_argv(value@),
{
    let mut setting = text("net.ipv4.ip_forward=");
    setting.append(value);
    let mut args: Vec<String> = Vec::new();
    args.push(text("-w"));
    args.push(setting);
    let r = DeviceCommand { program: text("sysctl"), args };
    assert(argv(r) =~= forwarding_argv(value@));
    r
}

/// The local tunnel device: its OS name and its address in CIDR notation.
#[derive(Debug)]
pub struct TunDevice {
    pub name: String,
    pub address: String,
}

impl TunDevice {
    pub fn new(name: &str, address: &str) -> (r: TunDevice)
        ensures
            r.name@ == name@,
            r.address@ == address@,
    {
        TunDevice { name: text(name), address: text(address) }
    }

    /// The command that brings the device up.
    pub fn up(&self) -> (r: DeviceCommand)
        ensures
            argv(r) == link_argv(self.name@, "up"@),
    {
        command6("ip", "link", "set", "dev", self.name.as_str(), "up")
    }

    /// The command that brings the device down.
    pub fn down(&self) -> (r: DeviceCommand)
        ensures
            argv(r) == link_argv(self.name@, "down"@),
    {
        command6("ip", "link", "set", "dev", self.name.as_str(), "down")
    }

    /// The command that assigns the device's address.
    pub fn set_address(&self) -> (r: DeviceCommand)
        ensures
            argv(r) == addr_argv("add"@, self.address@, self.name@),
    {
        command6("ip", "addr", "add", self.address.as_str(), "dev", self.name.as_str())
    }

    /// The command that removes the device's address.
    pub fn remove_address(&self) -> (r: DeviceCommand)
        ensures
            argv(r) == addr_argv("del"@, self.address@, self.name@),
    {
        command6("ip", "addr", "del", self.address.as_str(), "dev", self.name.as_str())
    }

    /// The command that routes `route` through the device.
    pub fn add_route(&self, route: &str) -> (r: DeviceCommand)
        ensures
            argv(r) == route_argv("add"@, route@, self.name@),
    {
        command6("ip", "route", "add", route, "dev", self.name.as_str())
    }

    /// The command that removes the route `route` from the device.
    pub fn remove_route(&self, route: &str) -> (r: DeviceCommand)
        ensures
            argv(r) == route_argv("del"@, route@, self.name@),
    {
        command6("ip", "route", "del", route, "dev", self.name.as_str())
    }

    /// The command that turns system-wide IPv4 forwarding on.
    pub fn enable_forwarding() -> (r: DeviceCommand)
        ensures
            argv(r) == forwarding_argv("1"@),
    {
        sysctl_command("1")
    }

    /// The command that turns system-wide IPv4 forwarding off.
    pub fn disable_forwarding() -> (r: DeviceCommand)
        ensures
            argv(r) == forwarding_argv("0"@),
    {
        sysctl_command("0")
    }
}

/// `program` is the sysctl tool, whose failures are reported under its own name.
pub open spec fn is_sysctl(program: Seq<char>) -> bool {
    program == "sysctl"@
}

/// The text a failed command's diagnostic output is reported under.
pub open spec fn failure_text(program: Seq<char>, diagnostic: Seq<char>) -> Seq<char> {
    if is_sysctl(program) {
        "sysctl failed: "@ + diagnostic
    } else {
        "Command failed: "@ + diagnostic
    }
}

/// The text a command that could not be started is reported under.
pub open spec fn launch_failure_text(program: Seq<char>, reason: Seq<char>) -> Seq<char> {
    if is_sysctl(program) {
        "Failed to run sysctl: "@ + reason
    } else {
        "Failed to run command: "@ + reason
    }
}

fn names_sysctl(cmd: &DeviceCommand) -> (r: bool)
    ensures
        r == is_sysctl(cmd.program@),
{
    cmd.program == text("sysctl")
}

/// Turns how `cmd` ended into the device layer's result: success, or a
/// device error carrying the captured diagnostic output.
pub fn command_outcome(cmd: &DeviceCommand, success: bool, diagnostic: &str) -> (r: Result<(), Error>)
    ensures
        success ==> r == Ok::<(), Error>(()),
        !success ==> (r matches Err(Error::DeviceError(m)) && m@ == failure_text(
            cmd.program@,
            diagnostic@,
        )),
{
    if success {
        Ok(())
    } else {
        let mut message = if names_sysctl(cmd) {
            text("sysctl failed: ")
        } else {
            text("Command failed: ")
        };
        message.append(diagnostic);
        Err(Error::DeviceError(message))
    }
}

/// The error for `cmd` when it could not be started at all.
pub fn launch_failure(cmd: &DeviceCommand, reason: &str) -> (r: Error)
    ensures
        r matches Error::DeviceError(m) && m@ == launch_failure_text(cmd.program@, reason@),
{
    let mut message = if names_sysctl(cmd) {
        text("Failed to run sysctl: ")
    } else {
        text("Failed to run command: ")
    };
    message.append(reason);
    Error::DeviceError(message)
}

} // verus!
