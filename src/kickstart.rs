//! Kickstart option groups and the document generator.
//!
//! Each option group renders its own fragment; the generator composes the
//! fragments into a document whose sections always come in the same order.

use vstd::prelude::*;

use crate::text::{contains_str, decimal, join, push_decimal, push_joined, views};

verus! {

/// How the installed system configures its network device.
#[derive(Debug, Clone, Copy, PartialEq, Eq, Structural)]
pub enum NetworkBootproto {
    Dhcp,
    Static,
}

/// Network settings of the installed system.
#[derive(Debug, Clone)]
pub struct KickstartNetwork {
    /// Install in text mode rather than graphical mode.
    pub text: bool,
    pub network_device: String,
    pub network_bootproto: NetworkBootproto,
    pub network_ip: String,
    pub network_netmask: String,
    pub network_gateway: String,
    pub network_nameserver: String,
    pub network_hostname: String,
}

impl KickstartNetwork {
    /// The `network` directive.
    pub open spec fn line(&self) -> Seq<char> {
        match self.network_bootproto {
            NetworkBootproto::Dhcp => "network --bootproto=dhcp --device="@ + self.network_device@
                + " --hostname="@ + self.network_hostname@ + " --ipv6=auto --activate"@,
            NetworkBootproto::Static => "network --bootproto=static --ip="@ + self.network_ip@
                + " --netmask="@ + self.network_netmask@ + " --gateway="@
                + self.network_gateway@ + " --device="@ + self.network_device@
                + " --nameserver="@ + self.network_nameserver@ + " --hostname="@
                + self.network_hostname@ + " --ipv6=auto --activate"@,
        }
    }

    /// Renders the `network` directive.
    pub fn generate(&self) -> (r: String)
        ensures
            r@ == self.line(),
    {
        match self.network_bootproto {
            NetworkBootproto::Dhcp => {
                let mut r = String::from_str("network --bootproto=dhcp --device=");
                r.append(self.network_device.as_str());
                r.append(" --hostname=");
                r.append(self.network_hostname.as_str());
                r.append(" --ipv6=auto --activate");
                r
            },
            NetworkBootproto::Static => {
                let mut r = String::from_str("network --bootproto=static --ip=");
                r.append(self.network_ip.as_str());
                r.append(" --netmask=");
                r.append(self.network_netmask.as_str());
                r.append(" --gateway=");
                r.append(self.network_gateway.as_str());
                r.append(" --device=");
                r.append(self.network_device.as_str());
                r.append(" --nameserver=");
                r.append(self.network_nameserver.as_str());
                r.append(" --hostname=");
                r.append(self.network_hostname.as_str());
                r.append(" --ipv6=auto --activate");
                r
            },
        }
    }
}

/// Installation environment presets.
#[derive(Debug, Clone, Copy, PartialEq, Eq, Structural)]
pub enum InstallEnvironment {
    MinimalEnvironment,
    GraphicalServerEnvironment,
    ServerProductEnvironment,
    WorkstationProductEnvironment,
    VirtualizationHostEnvironment,
}

impl InstallEnvironment {
    /// The kebab-case group name of the preset.
    pub open spec fn token(&self) -> Seq<char> {
        match self {
            InstallEnvironment::MinimalEnvironment => "minimal-environment"@,
            InstallEnvironment::GraphicalServerEnvironment => "graphical-server-environment"@,
            InstallEnvironment::ServerProductEnvironment => "server-product-environment"@,
            InstallEnvironment::WorkstationProductEnvironment => "workstation-product-environment"@,
            InstallEnvironment::VirtualizationHostEnvironment => "virtualization-host-environment"@,
        }
    }

    /// The kebab-case group name of the preset.
    pub fn to_string(&self) -> (r: String)
        ensures
            r@ == self.token(),
    {
        match self {
            InstallEnvironment::MinimalEnvironment => String::from_str("minimal-environment"),
            InstallEnvironment::GraphicalServerEnvironment => String::from_str(
                "graphical-server-environment",
            ),
            InstallEnvironment::ServerProductEnvironment => String::from_str(
                "server-product-environment",
            ),
            InstallEnvironment::WorkstationProductEnvironment => String::from_str(
                "workstation-product-environment",
            ),
            InstallEnvironment::VirtualizationHostEnvironment => String::from_str(
                "virtualization-host-environment",
            ),
        }
    }
}

/// Keyboard, language, time zone and package selection.
#[derive(Debug, Clone)]
pub struct KickstartSystem {
    pub timezone: String,
    pub keyboard: String,
    pub language: String,
    pub packages: Vec<String>,
    pub environment: InstallEnvironment,
}

/// Disk layout: a fixed set of partitions on one device.
#[derive(Debug, Clone)]
pub struct Storage {
    pub storage_device: String,
    pub filesystem: String,
}

impl Storage {
    /// The partitioning directives.
    pub open spec fn layout(&self) -> Seq<char> {
        "ignoredisk --only-use="@ + self.storage_device@
            + "\n# Partition clearing information\nclearpart --none --initlabel\n# Disk partitioning information\nreqpart\npart pv.116 --fstype=\"lvmpv\" --ondisk="@
            + self.storage_device@ + " --size=15360 --grow\npart /boot --fstype=\""@
            + self.filesystem@ + "\" --ondisk="@ + self.storage_device@
            + " --size=1024\nvolgroup almalinux --pesize=4096 pv.116\nlogvol swap --fstype=\"swap\" --size=4030 --name=swap --vgname=almalinux\nlogvol / --fstype=\""@
            + self.filesystem@ + "\" --size=10240 --name=root --vgname=almalinux --grow\n"@
    }

    /// Renders the partitioning directives.
    pub fn generate(&self) -> (r: String)
        ensures
            r@ == self.layout(),
    {
        let mut r = String::from_str("ignoredisk --only-use=");
        r.append(self.storage_device.as_str());
        r.append(
            "\n# Partition clearing information\nclearpart --none --initlabel\n# Disk partitioning information\nreqpart\npart pv.116 --fstype=\"lvmpv\" --ondisk=",
        );
        r.append(self.storage_device.as_str());
        r.append(" --size=15360 --grow\npart /boot --fstype=\"");
        r.append(self.filesystem.as_str());
        r.append("\" --ondisk=");
        r.append(self.storage_device.as_str());
        r.append(
            " --size=1024\nvolgroup almalinux --pesize=4096 pv.116\nlogvol swap --fstype=\"swap\" --size=4030 --name=swap --vgname=almalinux\nlogvol / --fstype=\"",
        );
        r.append(self.filesystem.as_str());
        r.append("\" --size=10240 --name=root --vgname=almalinux --grow\n");
        r
    }
}

/// Why a kickstart document could not be generated.
#[derive(Debug, Clone, Copy, PartialEq, Eq, Structural)]
pub enum KickstartError {
    /// No root password mode resolved to a value.
    RootPasswordNotSet,
    /// A user name was given but no user password mode resolved to a value.
    UserPasswordNotSet,
    /// The root account is locked and no other user is configured.
    RootLockedWithoutUser,
    /// The root account is locked and the user is not in the `wheel` group.
    RootLockedWithoutWheelGroup,
}

impl KickstartError {
    /// A human-readable description of the error.
    pub fn message(&self) -> &'static str {
        match self {
            KickstartError::RootPasswordNotSet => "Root password is not set",
            KickstartError::UserPasswordNotSet => "User password is not set",
            KickstartError::RootLockedWithoutUser => "Root password is locked and user is not set",
            KickstartError::RootLockedWithoutWheelGroup => {
                "Root password is locked and user is not in wheel group"
            },
        }
    }
}

/// The view of a rendered fragment, or the error that stopped it.
pub open spec fn result_view(r: Result<String, KickstartError>) -> Result<Seq<char>, KickstartError> {
    match r {
        Ok(s) => Ok(s@),
        Err(e) => Err(e),
    }
}

/// Root account credentials.
///
/// `entered` arguments of the methods below stand for the crypt string that
/// was produced from a password typed at the keyboard, when there is one.
#[derive(Debug, Clone)]
pub struct RootPw {
    pub rootpw_plain: Option<String>,
    pub rootpw_crypt: Option<String>,
    pub rootpw_keyboard: bool,
    pub rootpw_locked: bool,
    pub root_sshkey: Option<String>,
}

impl RootPw {
    /// Exactly one of the four password modes is selected.
    pub open spec fn valid(&self) -> bool {
        (if self.rootpw_plain is Some { 1int } else { 0 }) + (if self.rootpw_crypt is Some { 1int } else { 0 })
            + (if self.rootpw_keyboard { 1int } else { 0 }) + (if self.rootpw_locked { 1int } else { 0 }) == 1
    }

    /// The keyboard mode is the one that resolves, so a password is to be
    /// typed for root.
    pub fn wants_keyboard(&self) -> (r: bool)
        ensures
            r == (self.rootpw_plain is None && self.rootpw_crypt is None && self.rootpw_keyboard),
    {
        self.rootpw_plain.is_none() && self.rootpw_crypt.is_none() && self.rootpw_keyboard
    }

    /// The `sshkey` line for root, with its leading newline, if a key is set.
    pub open spec fn ssh_line(&self) -> Seq<char> {
        match self.root_sshkey {
            Some(k) => "\nsshkey --username=root \""@ + k@ + "\""@,
            None => Seq::empty(),
        }
    }

    /// The root credential fragment; modes are tried in the order plain text,
    /// crypt string, keyboard, locked.
    pub open spec fn fragment(&self, entered: Option<String>) -> Result<Seq<char>, KickstartError> {
        if self.rootpw_plain is Some {
            Ok("rootpw --plaintext "@ + self.rootpw_plain->0@ + self.ssh_line())
        } else if self.rootpw_crypt is Some {
            Ok("rootpw --iscrypted "@ + self.rootpw_crypt->0@ + self.ssh_line())
        } else if self.rootpw_keyboard {
            match entered {
                Some(h) => Ok("rootpw --iscrypted "@ + h@ + self.ssh_line()),
                None => Err(KickstartError::RootPasswordNotSet),
            }
        } else if self.rootpw_locked {
            Ok("rootpw --lock"@ + self.ssh_line())
        } else {
            Err(KickstartError::RootPasswordNotSet)
        }
    }

    /// Renders the root credential fragment.
    pub fn generate(&self, entered: &Option<String>) -> (r: Result<String, KickstartError>)
        ensures
            result_view(r) == self.fragment(*entered),
    {
        let mut sshkey = String::new();
        if let Some(k) = &self.root_sshkey {
            sshkey.append("\nsshkey --username=root \"");
            sshkey.append(k.as_str());
            sshkey.append("\"");
        }
        let mut r;
        if let Some(pw) = &self.rootpw_plain {
            r = String::from_str("rootpw --plaintext ");
            r.append(pw.as_str());
        } else if let Some(pw) = &self.rootpw_crypt {
            r = String::from_str("rootpw --iscrypted ");
            r.append(pw.as_str());
        } else if self.rootpw_keyboard {
            match entered {
                Some(h) => {
                    r = String::from_str("rootpw --iscrypted ");
                    r.append(h.as_str());
                },
                None => {
                    return Err(KickstartError::RootPasswordNotSet);
                },
            }
        } else if self.rootpw_locked {
            r = String::from_str("rootpw --lock");
        } else {
            return Err(KickstartError::RootPasswordNotSet);
        }
        assert(sshkey@ =~= Seq::<char>::empty() + self.ssh_line());
        r.append(sshkey.as_str());
        Ok(r)
    }
}

/// An optional extra user account.
#[derive(Debug, Clone)]
pub struct UserPw {
    pub username: Option<String>,
    pub user_plain: Option<String>,
    pub user_crypt: Option<String>,
    pub user_keyboard: bool,
    pub user_groups: Option<Vec<String>>,
    pub user_sshkey: Option<String>,
    pub user_uid: Option<u32>,
    pub user_gid: Option<u32>,
}

impl UserPw {
    /// A user is configured and its keyboard mode is the one that resolves,
    /// so a password is to be typed for it.
    pub fn wants_keyboard(&self) -> (r: bool)
        ensures
            r == (self.username is Some && self.user_plain is None && self.user_crypt is None
                && self.user_keyboard),
    {
        self.username.is_some() && self.user_plain.is_none() && self.user_crypt.is_none()
            && self.user_keyboard
    }

    /// The user is a member of the `wheel` group.
    pub open spec fn in_wheel(&self) -> bool {
        match self.user_groups {
            Some(g) => exists|i: int| 0 <= i < g@.len() && #[trigger] g@[i]@ == "wheel"@,
            None => false,
        }
    }

    /// The password flags, if a password mode resolves to a value.
    pub open spec fn password_flags(&self, entered: Option<String>) -> Option<Seq<char>> {
        if self.user_plain is Some {
            Some("--password="@ + self.user_plain->0@ + " --plaintext"@)
        } else if self.user_crypt is Some {
            Some("--password="@ + self.user_crypt->0@ + " --iscrypted"@)
        } else if self.user_keyboard && entered is Some {
            Some("--password="@ + entered->0@ + " --iscrypted"@)
        } else {
            None
        }
    }

    pub open spec fn groups_flag(&self) -> Seq<char> {
        match self.user_groups {
            Some(g) => "--groups="@ + join(views(g@), ","@),
            None => Seq::empty(),
        }
    }

    pub open spec fn uid_flag(&self) -> Seq<char> {
        match self.user_uid {
            Some(n) => "--uid="@ + decimal(n as nat),
            None => Seq::empty(),
        }
    }

    pub open spec fn gid_flag(&self) -> Seq<char> {
        match self.user_gid {
            Some(n) => "--gid="@ + decimal(n as nat),
            None => Seq::empty(),
        }
    }

    pub open spec fn ssh_line(&self) -> Seq<char> {
        match self.user_sshkey {
            Some(k) => "\nsshkey --username="@ + self.username->0@ + " \""@ + k@ + "\""@,
            None => Seq::empty(),
        }
    }

    /// The user fragment: empty without a user name.
    pub open spec fn fragment(&self, entered: Option<String>) -> Result<Seq<char>, KickstartError> {
        match self.username {
            None => Ok(Seq::empty()),
            Some(name) => match self.password_flags(entered) {
                None => Err(KickstartError::UserPasswordNotSet),
                Some(pw) => Ok("user --name="@ + name@ + " "@ + pw + " "@ + self.groups_flag()
                    + " "@ + self.uid_flag() + " "@ + self.gid_flag() + self.ssh_line()),
            },
        }
    }

    fn password_flags_of(&self, entered: &Option<String>) -> (r: Option<String>)
        ensures
            r matches Some(s) ==> self.password_flags(*entered) == Some(s@),
            r is None ==> self.password_flags(*entered) is None,
    {
        let mut pw = String::from_str("--password=");
        if let Some(p) = &self.user_plain {
            pw.append(p.as_str());
            pw.append(" --plaintext");
        } else if let Some(p) = &self.user_crypt {
            pw.append(p.as_str());
            pw.append(" --iscrypted");
        } else if self.user_keyboard {
            match entered {
                Some(h) => {
                    pw.append(h.as_str());
                    pw.append(" --iscrypted");
                },
                None => {
                    return None;
                },
            }
        } else {
            return None;
        }
        Some(pw)
    }

    fn groups_flag_of(&self) -> (r: String)
        ensures
            r@ == self.groups_flag(),
    {
        let mut r = String::new();
        if let Some(g) = &self.user_groups {
            r.append("--groups=");
            push_joined(&mut r, g, ",");
            assert(r@ =~= "--groups="@ + join(views(g@), ","@));
        }
        r
    }

    fn id_flag(prefix: &str, id: Option<u32>) -> (r: String)
        ensures
            r@ == match id {
                Some(n) => prefix@ + decimal(n as nat),
                None => Seq::<char>::empty(),
            },
    {
        let mut r = String::new();
        if let Some(n) = id {
            r.append(prefix);
            push_decimal(&mut r, n);
            assert(r@ =~= prefix@ + decimal(n as nat));
        }
        r
    }

    /// Renders the user fragment.
    pub fn generate(&self, entered: &Option<String>) -> (r: Result<String, KickstartError>)
        ensures
            result_view(r) == self.fragment(*entered),
    {
        let username = match &self.username {
            Some(u) => u,
            None => {
                return Ok(String::new());
            },
        };
        let pw = match self.password_flags_of(entered) {
            Some(pw) => pw,
            None => {
                return Err(KickstartError::UserPasswordNotSet);
            },
        };
        let groups = self.groups_flag_of();
        let uid = Self::id_flag("--uid=", self.user_uid);
        let gid = Self::id_flag("--gid=", self.user_gid);
        let mut sshkey = String::new();
        if let Some(k) = &self.user_sshkey {
            sshkey.append("\nsshkey --username=");
            sshkey.append(username.as_str());
            sshkey.append(" \"");
            sshkey.append(k.as_str());
            sshkey.append("\"");
            assert(sshkey@ =~= self.ssh_line());
        }
        let mut r = String::from_str("user --name=");
        r.append(username.as_str());
        r.append(" ");
        r.append(pw.as_str());
        r.append(" ");
        r.append(groups.as_str());
        r.append(" ");
        r.append(uid.as_str());
        r.append(" ");
        r.append(gid.as_str());
        r.append(sshkey.as_str());
        Ok(r)
    }
}

/// A complete kickstart configuration.
#[derive(Debug, Clone)]
pub struct Kickstart {
    pub network: KickstartNetwork,
    pub system_options: KickstartSystem,
    pub rootpw: RootPw,
    pub storage: Storage,
    pub user: UserPw,
}

/// The document text around the rendered fragments, in section order.
pub open spec fn document_text(
    mode: Seq<char>,
    keyboard: Seq<char>,
    language: Seq<char>,
    network: Seq<char>,
    environment: Seq<char>,
    packages: Seq<char>,
    storage: Seq<char>,
    timezone: Seq<char>,
    rootpw: Seq<char>,
    user: Seq<char>,
) -> Seq<char> {
    mode
        + "\neula --agreed\nrepo --name=\"AppStream\" --baseurl=file:///run/install/sources/mount-0000-cdrom/AppStream\nreboot\n\n%addon com_redhat_kdump --enable --reserve-mb='auto'\n\n%end\n\n# Keyboard layouts\nkeyboard --xlayouts='"@
        + keyboard + "'\n# System language\nlang "@ + language + "\n\n# Network information\n"@
        + network + "\n\n# Use CDROM installation media\ncdrom\n\n%packages\n@^"@ + environment
        + "\n"@ + packages
        + "\n\n%end\n\n# Run the Setup Agent on first boot\nfirstboot --enable\n\n# Disk\n"@ + storage
        + "\n\n# System timezone\ntimezone "@ + timezone + " --utc\n\n#Root password\n"@ + rootpw
        + "\n"@ + user + "\n\nshutdown\n"@
}

impl Kickstart {
    /// The installation mode line.
    pub open spec fn mode(&self) -> Seq<char> {
        if self.network.text { "text"@ } else { "graphical"@ }
    }

    /// The document built from the given root and user fragments.
    pub open spec fn render(&self, rootpw: Seq<char>, user: Seq<char>) -> Seq<char> {
        document_text(
            self.mode(),
            self.system_options.keyboard@,
            self.system_options.language@,
            self.network.line(),
            self.system_options.environment.token(),
            join(views(self.system_options.packages@), "\n"@),
            self.storage.layout(),
            self.system_options.timezone@,
            rootpw,
            user,
        )
    }

    /// The whole document, or the first error: the root fragment, then the
    /// user fragment, then a locked root without a user, then a locked root
    /// whose user is not in `wheel`.
    pub open spec fn document(&self, root_entered: Option<String>, user_entered: Option<String>) -> Result<Seq<char>, KickstartError> {
        match self.rootpw.fragment(root_entered) {
            Err(e) => Err(e),
            Ok(rootpw) => match self.user.fragment(user_entered) {
                Err(e) => Err(e),
                Ok(user) => if self.rootpw.rootpw_locked && self.user.username is None {
                    Err(KickstartError::RootLockedWithoutUser)
                } else if self.rootpw.rootpw_locked && !self.user.in_wheel() {
                    Err(KickstartError::RootLockedWithoutWheelGroup)
                } else {
                    Ok(self.render(rootpw, user))
                },
            },
        }
    }

    fn in_wheel(&self) -> (r: bool)
        ensures
            r == self.user.in_wheel(),
    {
        match &self.user.user_groups {
            Some(g) => {
                let r = contains_str(g, "wheel");
                r
            },
            None => false,
        }
    }

    fn render_exec(&self, rootpw: &String, user: &String) -> (r: String)
        ensures
            r@ == self.render(rootpw@, user@),
    {
        let network = self.network.generate();
        let storage = self.storage.generate();
        let environment = self.system_options.environment.to_string();
        let mut r = if self.network.text {
            String::from_str("text")
        } else {
            String::from_str("graphical")
        };
        r.append(
            "\neula --agreed\nrepo --name=\"AppStream\" --baseurl=file:///run/install/sources/mount-0000-cdrom/AppStream\nreboot\n\n%addon com_redhat_kdump --enable --reserve-mb='auto'\n\n%end\n\n# Keyboard layouts\nkeyboard --xlayouts='",
        );
        r.append(self.system_options.keyboard.as_str());
        r.append("'\n# System language\nlang ");
        r.append(self.system_options.language.as_str());
        r.append("\n\n# Network information\n");
        r.append(network.as_str());
        r.append("\n\n# Use CDROM installation media\ncdrom\n\n%packages\n@^");
        r.append(environment.as_str());
        r.append("\n");
        push_joined(&mut r, &self.system_options.packages, "\n");
        r.append("\n\n%end\n\n# Run the Setup Agent on first boot\nfirstboot --enable\n\n# Disk\n");
        r.append(storage.as_str());
        r.append("\n\n# System timezone\ntimezone ");
        r.append(self.system_options.timezone.as_str());
        r.append(" --utc\n\n#Root password\n");
        r.append(rootpw.as_str());
        r.append("\n");
        r.append(user.as_str());
        r.append("\n\nshutdown\n");
        r
    }

    /// Generates the kickstart document.
    ///
    /// `root_entered` and `user_entered` are the crypt strings of passwords
    /// typed at the keyboard, used only by the keyboard modes.
    pub fn generate(&self, root_entered: &Option<String>, user_entered: &Option<String>) -> (r: Result<String, KickstartError>)
        ensures
            result_view(r) == self.document(*root_entered, *user_entered),
    {
        let rootpw = match self.rootpw.generate(root_entered) {
            Ok(s) => s,
            Err(e) => {
                return Err(e);
            },
        };
        let user = match self.user.generate(user_entered) {
            Ok(s) => s,
            Err(e) => {
                return Err(e);
            },
        };
        if self.rootpw.rootpw_locked && self.user.username.is_none() {
            return Err(KickstartError::RootLockedWithoutUser);
        }
        if self.rootpw.rootpw_locked && !self.in_wheel() {
            return Err(KickstartError::RootLockedWithoutWheelGroup);
        }
        Ok(self.render_exec(&rootpw, &user))
    }
}

/// Generation is deterministic: two results that `Kickstart::generate`
/// may return for the same configuration and the same entered passwords are
/// the same error or byte-identical documents.
pub proof fn lemma_generate_deterministic(
    k: Kickstart,
    root_entered: Option<String>,
    user_entered: Option<String>,
    a: Result<String, KickstartError>,
    b: Result<String, KickstartError>,
)
    requires
        result_view(a) == k.document(root_entered, user_entered),
        result_view(b) == k.document(root_entered, user_entered),
    ensures
        a is Ok <==> b is Ok,
        a matches Err(e) ==> b == Err::<String, KickstartError>(e),
        a matches Ok(x) ==> b matches Ok(y) && x@ == y@,
{
}

/// A locked root account with no user configured is refused with
/// `RootLockedWithoutUser`.
pub proof fn lemma_locked_root_needs_user(
    k: Kickstart,
    root_entered: Option<String>,
    user_entered: Option<String>,
)
    requires
        k.rootpw.valid(),
        k.rootpw.rootpw_locked,
        k.user.username is None,
    ensures
        k.document(root_entered, user_entered) == Err::<Seq<char>, KickstartError>(
            KickstartError::RootLockedWithoutUser,
        ),
{
}

/// A locked root account whose user has a password but is not in the
/// `wheel` group is refused with `RootLockedWithoutWheelGroup`.
pub proof fn lemma_locked_root_needs_wheel(
    k: Kickstart,
    root_entered: Option<String>,
    user_entered: Option<String>,
)
    requires
        k.rootpw.valid(),
        k.rootpw.rootpw_locked,
        k.user.username is Some,
        k.user.password_flags(user_entered) is Some,
        !k.user.in_wheel(),
    ensures
        k.document(root_entered, user_entered) == Err::<Seq<char>, KickstartError>(
            KickstartError::RootLockedWithoutWheelGroup,
        ),
{
}

} // verus!
