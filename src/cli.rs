//! The commands of the provisioning tool.

use vstd::prelude::*;

use crate::batch::{BatchInstall, RunAll};
use crate::createvm::CreateVm;
use crate::kickstart::Kickstart;
use crate::passwd::Passwd;

verus! {

/// One command of the tool.
#[derive(Debug, Clone)]
pub enum Command {
    /// Create a VM using virt-install.
    CreateVm(CreateVm),
    /// Create a kickstart file.
    Kickstart(Kickstart),
    /// Encrypt a password.
    EncryptPasswd(Passwd),
    /// Create a kickstart file and create a VM.
    RunAll(RunAll),
    /// Batch install VMs using a CSV file.
    BatchInstall(BatchInstall),
}

/// The parsed command line.
#[derive(Debug, Clone)]
pub struct Cli {
    pub command: Command,
}

} // verus!
