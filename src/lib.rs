//! Kickstart document generation, virt-install command planning and
//! CSV-driven batch provisioning of virtual machines.

pub mod batch;
pub mod cli;
pub mod createvm;
pub mod kickstart;
pub mod passwd;
pub mod tabular;
pub mod text;

pub use batch::{BatchAction, BatchInstall, BatchInstallParser, BatchRun, RunAll};
pub use cli::{Cli, Command};
pub use createvm::{disk_default, CreateVm, CreateVmBase, CreateVmError, VmLaunch};
pub use kickstart::{
    InstallEnvironment, Kickstart, KickstartError, KickstartNetwork, KickstartSystem,
    NetworkBootproto, RootPw, Storage, UserPw,
};
pub use passwd::{encrypt_password, Passwd, PasswdError};
pub use tabular::{expand, generate_options_from_csv, TabularError, TabularInput};
