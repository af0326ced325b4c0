use kickstart_vm::createvm::path_file_name;
use kickstart_vm::{disk_default, CreateVm, CreateVmBase, CreateVmError};

fn base() -> CreateVmBase {
    CreateVmBase {
        vm_name: "vm1".to_string(),
        disk_size: disk_default(),
        memory: 4096,
        vcpu: 2,
        network: "network=default,model=virtio".to_string(),
        iso: "/isos/alma.iso".to_string(),
        do_not_remove_temporary_directory: false,
        dry_run: false,
        osinfo: "almalinux8".to_string(),
    }
}

const BASE_ARGS: [&str; 20] = [
    "virt-install",
    "--name",
    "vm1",
    "--osinfo",
    "almalinux8",
    "--disk",
    "size=70",
    "--vcpu",
    "2",
    "--cpu",
    "host",
    "--memory",
    "memory=4096,maxmemory=4096",
    "--location",
    "/isos/alma.iso",
    "--network",
    "network=default,model=virtio",
    "--noreboot",
    "--autoconsole",
    "text",
];

#[test]
fn virt_install_without_kickstart() {
    let cmd = base().virt_install_cmd(None).unwrap();
    assert_eq!(cmd, BASE_ARGS.to_vec());
}

#[test]
fn virt_install_with_kickstart() {
    let cmd = base().virt_install_cmd(Some("/tmp/dir/.tmpAbC")).unwrap();
    let mut expected: Vec<&str> = BASE_ARGS.to_vec();
    expected.extend([
        "--initrd-inject",
        "/tmp/dir/.tmpAbC",
        "--extra-args",
        "inst.text  inst.ks=file:.tmpAbC  console=ttyS0",
    ]);
    assert_eq!(cmd, expected);
}

#[test]
fn virt_install_bad_kickstart_path() {
    assert_eq!(base().virt_install_cmd(Some("/tmp/..")), Err(CreateVmError::InvalidKickstartPath));
    assert_eq!(base().virt_install_cmd(Some("")), Err(CreateVmError::InvalidKickstartPath));
    assert_eq!(base().virt_install_cmd(Some("/")), Err(CreateVmError::InvalidKickstartPath));
}

#[test]
fn file_names_of_paths() {
    assert_eq!(path_file_name("/tmp/ks.cfg"), Some("ks.cfg".to_string()));
    assert_eq!(path_file_name("ks.cfg"), Some("ks.cfg".to_string()));
    assert_eq!(path_file_name("a/b/"), Some("b".to_string()));
    assert_eq!(path_file_name("a/b/."), Some("b".to_string()));
    assert_eq!(path_file_name("a//b"), Some("b".to_string()));
    assert_eq!(path_file_name("."), None);
    assert_eq!(path_file_name("a/.."), None);
}

#[test]
fn create_vm_plans_display_and_execution() {
    let mut b = base();
    b.memory = 8192;
    b.vcpu = 16;
    b.disk_size = 120;
    let launch = b.create_vm(None).unwrap();
    assert!(launch.execute);
    assert_eq!(launch.command[6], "size=120");
    assert_eq!(launch.command[8], "16");
    assert_eq!(launch.command[12], "memory=8192,maxmemory=8192");
    assert!(launch.display.starts_with("\"virt-install\" \"--name\" \"vm1\""));
    assert!(launch.display.ends_with("\"--autoconsole\" \"text\""));
    b.dry_run = true;
    assert!(!b.create_vm(None).unwrap().execute);
}

#[test]
fn create_vm_run_uses_kickstart() {
    let vm = CreateVm {
        base: base(),
        kickstart: Some("/tmp/x/ks.cfg".to_string()),
    };
    let launch = vm.run().unwrap();
    assert_eq!(launch.command.len(), 24);
    assert_eq!(launch.command[23], "inst.text  inst.ks=file:ks.cfg  console=ttyS0");
}
