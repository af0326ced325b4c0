//! The virt-install command line for creating a virtual machine.

use vstd::prelude::*;

use crate::text::{decimal, join, push_decimal, push_joined, views};

verus! {

/// Base parameters of a virtual machine.
#[derive(Debug, Clone)]
pub struct CreateVmBase {
    pub vm_name: String,
    /// Disk size in GB.
    pub disk_size: u32,
    /// Memory size in MB.
    pub memory: u32,
    pub vcpu: u32,
    pub network: String,
    pub iso: String,
    pub do_not_remove_temporary_directory: bool,
    /// Print the command instead of running it.
    pub dry_run: bool,
    pub osinfo: String,
}

/// Disk size, in GB, used when none is given.
pub fn disk_default() -> (r: u32)
    ensures
        r == 70,
{
    70
}

/// Why a command line could not be built.
#[derive(Debug, Clone, Copy, PartialEq, Eq, Structural)]
pub enum CreateVmError {
    /// The kickstart path names no file (it is empty, a root, or ends in `..`).
    InvalidKickstartPath,
}

/// What to do to create a virtual machine.
#[derive(Debug, Clone)]
pub struct VmLaunch {
    /// The command line, starting with the executable.
    pub command: Vec<String>,
    /// The command line with each argument in double quotes, for display.
    pub display: String,
    /// Whether the command is to be run (it is not on a dry run).
    pub execute: bool,
}

/// Length of `p[..e]` once trailing `/` and `.` components are removed.
pub open spec fn trimmed_len(p: Seq<char>, e: nat) -> nat
    recommends
        e <= p.len(),
    decreases e,
{
    if e == 0 {
        0
    } else if p[e - 1] == '/' {
        trimmed_len(p, (e - 1) as nat)
    } else if p[e - 1] == '.' && (e == 1 || p[e - 2] == '/') {
        trimmed_len(p, (e - 1) as nat)
    } else {
        e
    }
}

/// Start of the path component that ends at `e`.
pub open spec fn component_start(p: Seq<char>, e: nat) -> nat
    recommends
        e <= p.len(),
    decreases e,
{
    if e == 0 {
        0
    } else if p[e - 1] == '/' {
        e
    } else {
        component_start(p, (e - 1) as nat)
    }
}

/// The last component of a `/`-separated path, ignoring empty and `.`
/// components; none if there is no component or it is `..`.
pub open spec fn file_name(p: Seq<char>) -> Option<Seq<char>> {
    let e = trimmed_len(p, p.len());
    let c = p.subrange(component_start(p, e) as int, e as int);
    if c.len() == 0 || c == seq!['.', '.'] {
        None
    } else {
        Some(c)
    }
}

/// The file name of a path, as `file_name` states it.
pub fn path_file_name(path: &str) -> (r: Option<String>)
    ensures
        r matches Some(n) ==> file_name(path@) == Some(n@),
        r is None ==> file_name(path@) is None,
{
    let ghost p = path@;
    let n = path.unicode_len();
    let mut e: usize = n;
    while e > 0 && (path.get_char(e - 1) == '/' || (path.get_char(e - 1) == '.' && (e == 1
        || path.get_char(e - 2) == '/')))
        invariant
            e <= n,
            n == p.len(),
            p == path@,
            trimmed_len(p, e as nat) == trimmed_len(p, n as nat),
        decreases e,
    {
        e = e - 1;
    }
    let mut s: usize = e;
    while s > 0 && path.get_char(s - 1) != '/'
        invariant
            s <= e <= n,
            n == p.len(),
            p == path@,
            component_start(p, s as nat) == component_start(p, e as nat),
            trimmed_len(p, n as nat) == e,
        decreases s,
    {
        s = s - 1;
    }
    let c = path.substring_char(s, e);
    if e - s == 0 {
        return None;
    }
    if e - s == 2 && c.get_char(0) == '.' && c.get_char(1) == '.' {
        assert(c@ =~= seq!['.', '.']);
        return None;
    }
    let r = String::from_str(c);
    assert(c@.len() != 2 || c@[0] != '.' || c@[1] != '.');
    Some(r)
}

/// The arguments of virt-install without a kickstart file.
pub open spec fn base_args(b: CreateVmBase) -> Seq<Seq<char>> {
    seq![
        "virt-install"@,
        "--name"@,
        b.vm_name@,
        "--osinfo"@,
        b.osinfo@,
        "--disk"@,
        "size="@ + decimal(b.disk_size as nat),
        "--vcpu"@,
        decimal(b.vcpu as nat),
        "--cpu"@,
        "host"@,
        "--memory"@,
        "memory="@ + decimal(b.memory as nat) + ",maxmemory="@ + decimal(b.memory as nat),
        "--location"@,
        b.iso@,
        "--network"@,
        b.network@,
        "--noreboot"@,
        "--autoconsole"@,
        "text"@,
    ]
}

/// The arguments that inject the kickstart file at `path`, named `name`.
pub open spec fn inject_args(path: Seq<char>, name: Seq<char>) -> Seq<Seq<char>> {
    seq![
        "--initrd-inject"@,
        path,
        "--extra-args"@,
        "inst.text  inst.ks=file:"@ + name + "  console=ttyS0"@,
    ]
}

/// The view of an optional path.
pub open spec fn path_view(p: Option<&str>) -> Option<Seq<char>> {
    match p {
        Some(s) => Some(s@),
        None => None,
    }
}

/// A command line shown with each argument in double quotes.
pub open spec fn quoted(args: Seq<Seq<char>>) -> Seq<char> {
    "\""@ + join(args, "\" \""@) + "\""@
}

impl CreateVmBase {
    /// The full command line, or none if the kickstart path names no file.
    pub open spec fn command(&self, kickstart_path: Option<Seq<char>>) -> Option<Seq<Seq<char>>> {
        match kickstart_path {
            None => Some(base_args(*self)),
            Some(p) => match file_name(p) {
                Some(name) => Some(base_args(*self) + inject_args(p, name)),
                None => None,
            },
        }
    }

    fn decimal_string(n: u32) -> (r: String)
        ensures
            r@ == decimal(n as nat),
    {
        let mut r = String::new();
        push_decimal(&mut r, n);
        assert(r@ =~= decimal(n as nat));
        r
    }

    fn base_command(&self) -> (r: Vec<String>)
        ensures
            views(r@) == base_args(*self),
    {
        let mut disk = String::from_str("size=");
        push_decimal(&mut disk, self.disk_size);
        let vcpu = Self::decimal_string(self.vcpu);
        let mut memory = String::from_str("memory=");
        push_decimal(&mut memory, self.memory);
        memory.append(",maxmemory=");
        push_decimal(&mut memory, self.memory);
        let mut cmd: Vec<String> = Vec::new();
        cmd.push(String::from_str("virt-install"));
        cmd.push(String::from_str("--name"));
        cmd.push(self.vm_name.clone());
        cmd.push(String::from_str("--osinfo"));
        cmd.push(self.osinfo.clone());
        cmd.push(String::from_str("--disk"));
        cmd.push(disk);
        cmd.push(String::from_str("--vcpu"));
        cmd.push(vcpu);
        cmd.push(String::from_str("--cpu"));
        cmd.push(String::from_str("host"));
        cmd.push(String::from_str("--memory"));
        cmd.push(memory);
        cmd.push(String::from_str("--location"));
        cmd.push(self.iso.clone());
        cmd.push(String::from_str("--network"));
        cmd.push(self.network.clone());
        cmd.push(String::from_str("--noreboot"));
        cmd.push(String::from_str("--autoconsole"));
        cmd.push(String::from_str("text"));
        assert(views(cmd@) =~= base_args(*self));
        cmd
    }

    /// Builds the virt-install command line, injecting the kickstart file at
    /// `kickstart_path` when one is given.
    pub fn virt_install_cmd(&self, kickstart_path: Option<&str>) -> (r: Result<Vec<String>, CreateVmError>)
        ensures
            r matches Ok(v) ==> self.command(path_view(kickstart_path)) == Some(views(v@)),
            r matches Err(e) ==> self.command(path_view(kickstart_path)) is None
                && e == CreateVmError::InvalidKickstartPath,
    {
        let mut cmd = self.base_command();
        if let Some(path) = kickstart_path {
            let name = match path_file_name(path) {
                Some(n) => n,
                None => {
                    return Err(CreateVmError::InvalidKickstartPath);
                },
            };
            let ghost before = cmd@;
            let mut extra = String::from_str("inst.text  inst.ks=file:");
            extra.append(name.as_str());
            extra.append("  console=ttyS0");
            cmd.push(String::from_str("--initrd-inject"));
            cmd.push(String::from_str(path));
            cmd.push(String::from_str("--extra-args"));
            cmd.push(extra);
            assert(views(cmd@) =~= views(before) + inject_args(path@, name@));
        }
        Ok(cmd)
    }

    /// Plans the creation of the virtual machine: the command line, how it
    /// is shown, and whether it is run.
    pub fn create_vm(&self, kickstart_path: Option<&str>) -> (r: Result<VmLaunch, CreateVmError>)
        ensures
            r matches Ok(l) ==> self.command(path_view(kickstart_path)) == Some(views(l.command@))
                && l.display@ == quoted(views(l.command@)) && l.execute == !self.dry_run,
            r matches Err(e) ==> self.command(path_view(kickstart_path)) is None
                && e == CreateVmError::InvalidKickstartPath,
    {
        let command = match self.virt_install_cmd(kickstart_path) {
            Ok(c) => c,
            Err(e) => {
                return Err(e);
            },
        };
        let mut display = String::from_str("\"");
        push_joined(&mut display, &command, "\" \"");
        display.append("\"");
        Ok(VmLaunch { command, display, execute: !self.dry_run })
    }
}

/// A virtual machine to create, with an optional kickstart file.
#[derive(Debug, Clone)]
pub struct CreateVm {
    pub base: CreateVmBase,
    pub kickstart: Option<String>,
}

impl CreateVm {
    /// Plans the creation of the virtual machine with the kickstart file, if
    /// any.
    pub fn run(&self) -> (r: Result<VmLaunch, CreateVmError>)
        ensures
            r matches Ok(l) ==> self.base.command(self.kickstart_view()) == Some(views(l.command@))
                && l.display@ == quoted(views(l.command@)) && l.execute == !self.base.dry_run,
            r matches Err(e) ==> self.base.command(self.kickstart_view()) is None
                && e == CreateVmError::InvalidKickstartPath,
    {
        match &self.kickstart {
            Some(k) => self.base.create_vm(Some(k.as_str())),
            None => self.base.create_vm(None),
        }
    }

    pub open spec fn kickstart_view(&self) -> Option<Seq<char>> {
        match self.kickstart {
            Some(k) => Some(k@),
            None => None,
        }
    }
}

} // verus!
