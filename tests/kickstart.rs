use kickstart_vm::{
    InstallEnvironment, Kickstart, KickstartError, KickstartNetwork, KickstartSystem,
    NetworkBootproto, RootPw, Storage, UserPw,
};

fn network(bootproto: NetworkBootproto) -> KickstartNetwork {
    KickstartNetwork {
        text: false,
        network_device: "enp1s0".to_string(),
        network_bootproto: bootproto,
        network_ip: "10.0.0.2".to_string(),
        network_netmask: "255.255.0.0".to_string(),
        network_gateway: "10.0.0.254".to_string(),
        network_nameserver: "10.0.0.1".to_string(),
        network_hostname: "test.example.com".to_string(),
    }
}

#[test]
fn test_kickstart_network_dhcp() {
    let network = network(NetworkBootproto::Dhcp);
    assert_eq!(
        network.generate(),
        r#"network --bootproto=dhcp --device=enp1s0 --hostname=test.example.com --ipv6=auto --activate"#
    );
}

#[test]
fn test_kickstart_network_static() {
    let network = network(NetworkBootproto::Static);
    assert_eq!(
        network.generate(),
        r#"network --bootproto=static --ip=10.0.0.2 --netmask=255.255.0.0 --gateway=10.0.0.254 --device=enp1s0 --nameserver=10.0.0.1 --hostname=test.example.com --ipv6=auto --activate"#
    );
}

#[test]
fn test_kickstart_storage() {
    let storage = Storage {
        storage_device: "sda1".to_string(),
        filesystem: "ext4".to_string(),
    };
    assert_eq!(
        storage.generate(),
        r#"ignoredisk --only-use=sda1
# Partition clearing information
clearpart --none --initlabel
# Disk partitioning information
reqpart
part pv.116 --fstype="lvmpv" --ondisk=sda1 --size=15360 --grow
part /boot --fstype="ext4" --ondisk=sda1 --size=1024
volgroup almalinux --pesize=4096 pv.116
logvol swap --fstype="swap" --size=4030 --name=swap --vgname=almalinux
logvol / --fstype="ext4" --size=10240 --name=root --vgname=almalinux --grow
"#
    );
}

#[test]
fn test_kickstart_rootpw_plain() {
    let rootpw = RootPw {
        rootpw_plain: Some("password".to_string()),
        rootpw_crypt: None,
        rootpw_keyboard: false,
        rootpw_locked: false,
        root_sshkey: Some("SSHKEY".to_string()),
    };
    assert_eq!(
        rootpw.generate(&None).unwrap(),
        r#"rootpw --plaintext password
sshkey --username=root "SSHKEY""#
    );
}

#[test]
fn test_kickstart_rootpw_crypt() {
    let rootpw = RootPw {
        rootpw_plain: None,
        rootpw_crypt: Some("CRYPT".to_string()),
        rootpw_keyboard: false,
        rootpw_locked: false,
        root_sshkey: None,
    };
    assert_eq!(rootpw.generate(&None).unwrap(), r#"rootpw --iscrypted CRYPT"#);
}

#[test]
fn test_kickstart_rootpw_lock() {
    let rootpw = RootPw {
        rootpw_plain: None,
        rootpw_crypt: None,
        rootpw_keyboard: false,
        rootpw_locked: true,
        root_sshkey: None,
    };
    assert_eq!(rootpw.generate(&None).unwrap(), r#"rootpw --lock"#);
}

#[test]
fn test_kickstart_user_plain() {
    let userpw = UserPw {
        username: Some("testuser".to_string()),
        user_plain: Some("password".to_string()),
        user_crypt: None,
        user_keyboard: false,
        user_uid: None,
        user_gid: None,
        user_groups: None,
        user_sshkey: None,
    };
    assert_eq!(
        userpw.generate(&None).unwrap(),
        r#"user --name=testuser --password=password --plaintext   "#
    );
}

#[test]
fn test_kickstart_user_crypt() {
    let userpw = UserPw {
        username: Some("testuser".to_string()),
        user_plain: None,
        user_crypt: Some("CRYPT".to_string()),
        user_keyboard: false,
        user_uid: Some(5000),
        user_gid: Some(6000),
        user_groups: Some(["wheel".to_string(), "docker".to_string()].to_vec()),
        user_sshkey: Some("SSHKEY".to_string()),
    };
    assert_eq!(
        userpw.generate(&None).unwrap(),
        r#"user --name=testuser --password=CRYPT --iscrypted --groups=wheel,docker --uid=5000 --gid=6000
sshkey --username=testuser "SSHKEY""#
    );
}

fn no_root() -> RootPw {
    RootPw {
        rootpw_plain: None,
        rootpw_crypt: None,
        rootpw_keyboard: false,
        rootpw_locked: false,
        root_sshkey: None,
    }
}

fn no_user() -> UserPw {
    UserPw {
        username: None,
        user_plain: None,
        user_crypt: None,
        user_keyboard: false,
        user_groups: None,
        user_sshkey: None,
        user_uid: None,
        user_gid: None,
    }
}

fn config(rootpw: RootPw, user: UserPw) -> Kickstart {
    Kickstart {
        network: network(NetworkBootproto::Dhcp),
        system_options: KickstartSystem {
            timezone: "Asia/Tokyo".to_string(),
            keyboard: "us".to_string(),
            language: "en_US.UTF-8".to_string(),
            packages: vec!["@standard".to_string(), "@guest-agents".to_string()],
            environment: InstallEnvironment::MinimalEnvironment,
        },
        rootpw,
        storage: Storage {
            storage_device: "vda".to_string(),
            filesystem: "xfs".to_string(),
        },
        user,
    }
}

#[test]
fn rootpw_keyboard_uses_entered_crypt() {
    let mut rootpw = no_root();
    rootpw.rootpw_keyboard = true;
    rootpw.root_sshkey = Some("KEY".to_string());
    assert_eq!(
        rootpw.generate(&Some("$6$abc".to_string())).unwrap(),
        "rootpw --iscrypted $6$abc\nsshkey --username=root \"KEY\""
    );
    assert_eq!(rootpw.generate(&None), Err(KickstartError::RootPasswordNotSet));
}

#[test]
fn rootpw_without_mode_is_not_set() {
    assert_eq!(no_root().generate(&None), Err(KickstartError::RootPasswordNotSet));
}

#[test]
fn user_without_name_is_empty() {
    assert_eq!(no_user().generate(&None).unwrap(), "");
}

#[test]
fn user_without_password_is_not_set() {
    let mut user = no_user();
    user.username = Some("bob".to_string());
    assert_eq!(user.generate(&None), Err(KickstartError::UserPasswordNotSet));
    user.user_keyboard = true;
    assert_eq!(user.generate(&None), Err(KickstartError::UserPasswordNotSet));
    assert_eq!(
        user.generate(&Some("H".to_string())).unwrap(),
        "user --name=bob --password=H --iscrypted   "
    );
}

#[test]
fn user_zero_ids_and_single_group() {
    let mut user = no_user();
    user.username = Some("u".to_string());
    user.user_crypt = Some("C".to_string());
    user.user_uid = Some(0);
    user.user_gid = Some(4294967295);
    user.user_groups = Some(vec!["wheel".to_string()]);
    assert_eq!(
        user.generate(&None).unwrap(),
        "user --name=u --password=C --iscrypted --groups=wheel --uid=0 --gid=4294967295"
    );
}

#[test]
fn environment_tokens() {
    assert_eq!(InstallEnvironment::MinimalEnvironment.to_string(), "minimal-environment");
    assert_eq!(
        InstallEnvironment::GraphicalServerEnvironment.to_string(),
        "graphical-server-environment"
    );
    assert_eq!(
        InstallEnvironment::ServerProductEnvironment.to_string(),
        "server-product-environment"
    );
    assert_eq!(
        InstallEnvironment::WorkstationProductEnvironment.to_string(),
        "workstation-product-environment"
    );
    assert_eq!(
        InstallEnvironment::VirtualizationHostEnvironment.to_string(),
        "virtualization-host-environment"
    );
}

#[test]
fn kickstart_full_document() {
    let mut rootpw = no_root();
    rootpw.rootpw_crypt = Some("CRYPT".to_string());
    let doc = config(rootpw, no_user()).generate(&None, &None).unwrap();
    let expected = r#"graphical
eula --agreed
repo --name="AppStream" --baseurl=file:///run/install/sources/mount-0000-cdrom/AppStream
reboot

%addon com_redhat_kdump --enable --reserve-mb='auto'

%end

# Keyboard layouts
keyboard --xlayouts='us'
# System language
lang en_US.UTF-8

# Network information
network --bootproto=dhcp --device=enp1s0 --hostname=test.example.com --ipv6=auto --activate

# Use CDROM installation media
cdrom

%packages
@^minimal-environment
@standard
@guest-agents

%end

# Run the Setup Agent on first boot
firstboot --enable

# Disk
ignoredisk --only-use=vda
# Partition clearing information
clearpart --none --initlabel
# Disk partitioning information
reqpart
part pv.116 --fstype="lvmpv" --ondisk=vda --size=15360 --grow
part /boot --fstype="xfs" --ondisk=vda --size=1024
volgroup almalinux --pesize=4096 pv.116
logvol swap --fstype="swap" --size=4030 --name=swap --vgname=almalinux
logvol / --fstype="xfs" --size=10240 --name=root --vgname=almalinux --grow


# System timezone
timezone Asia/Tokyo --utc

#Root password
rootpw --iscrypted CRYPT


shutdown
"#;
    assert_eq!(doc, expected);
}

#[test]
fn kickstart_text_mode() {
    let mut rootpw = no_root();
    rootpw.rootpw_plain = Some("pw".to_string());
    let mut k = config(rootpw, no_user());
    k.network.text = true;
    let doc = k.generate(&None, &None).unwrap();
    assert!(doc.starts_with("text\neula --agreed\n"));
}

#[test]
fn kickstart_generation_is_deterministic() {
    let mut rootpw = no_root();
    rootpw.rootpw_plain = Some("pw".to_string());
    let mut user = no_user();
    user.username = Some("admin".to_string());
    user.user_plain = Some("secret".to_string());
    user.user_groups = Some(vec!["wheel".to_string()]);
    let k = config(rootpw, user);
    let a = k.generate(&None, &None).unwrap();
    let b = k.generate(&None, &None).unwrap();
    assert_eq!(a.as_bytes(), b.as_bytes());
}

#[test]
fn kickstart_locked_root_without_user() {
    let mut rootpw = no_root();
    rootpw.rootpw_locked = true;
    let k = config(rootpw, no_user());
    assert_eq!(k.generate(&None, &None), Err(KickstartError::RootLockedWithoutUser));
}

#[test]
fn kickstart_locked_root_without_wheel() {
    let mut rootpw = no_root();
    rootpw.rootpw_locked = true;
    let mut user = no_user();
    user.username = Some("admin".to_string());
    user.user_plain = Some("secret".to_string());
    user.user_groups = Some(vec!["docker".to_string()]);
    let k = config(rootpw.clone(), user.clone());
    assert_eq!(k.generate(&None, &None), Err(KickstartError::RootLockedWithoutWheelGroup));
    user.user_groups = None;
    let k = config(rootpw, user);
    assert_eq!(k.generate(&None, &None), Err(KickstartError::RootLockedWithoutWheelGroup));
}

#[test]
fn kickstart_locked_root_with_wheel_user() {
    let mut rootpw = no_root();
    rootpw.rootpw_locked = true;
    let mut user = no_user();
    user.username = Some("admin".to_string());
    user.user_plain = Some("secret".to_string());
    user.user_groups = Some(vec!["docker".to_string(), "wheel".to_string()]);
    let doc = config(rootpw, user).generate(&None, &None).unwrap();
    assert!(doc.ends_with(
        "#Root password\nrootpw --lock\nuser --name=admin --password=secret --plaintext --groups=docker,wheel  \n\nshutdown\n"
    ));
}

#[test]
fn kickstart_errors_in_order() {
    let mut user = no_user();
    user.username = Some("admin".to_string());
    assert_eq!(
        config(no_root(), user.clone()).generate(&None, &None),
        Err(KickstartError::RootPasswordNotSet)
    );
    let mut rootpw = no_root();
    rootpw.rootpw_locked = true;
    assert_eq!(
        config(rootpw, user).generate(&None, &None),
        Err(KickstartError::UserPasswordNotSet)
    );
}

#[test]
fn keyboard_prompts_only_when_that_mode_resolves() {
    let mut rootpw = no_root();
    rootpw.rootpw_keyboard = true;
    assert!(rootpw.wants_keyboard());
    rootpw.rootpw_crypt = Some("C".to_string());
    assert!(!rootpw.wants_keyboard());
    let mut user = no_user();
    user.user_keyboard = true;
    assert!(!user.wants_keyboard());
    user.username = Some("u".to_string());
    assert!(user.wants_keyboard());
}

#[test]
fn rootpw_locked_keeps_sshkey() {
    let mut rootpw = no_root();
    rootpw.rootpw_locked = true;
    rootpw.root_sshkey = Some("K".to_string());
    assert_eq!(
        rootpw.generate(&None).unwrap(),
        "rootpw --lock\nsshkey --username=root \"K\""
    );
}
