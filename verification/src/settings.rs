//! The typed shapes of four sections that the configuration itself holds
//! as open values: boot loader, locale, networking and build parameters.
//! Each has a default that needs no input.
use vstd::prelude::*;

verus! {

/// Which boot loader to install, and where.
#[derive(Debug, PartialEq, Clone)]
pub struct Bootloader {
    /// The kind of boot loader (`type` in documents): grub, systemd-boot.
    pub kind: String,
    /// Where it is installed.
    pub location: String,
}

/// The mathematical value of a `Bootloader`.
pub struct BootloaderView {
    pub kind: Seq<char>,
    pub location: Seq<char>,
}

impl View for Bootloader {
    type V = BootloaderView;

    open spec fn view(&self) -> BootloaderView {
        BootloaderView { kind: self.kind@, location: self.location@ }
    }
}

impl BootloaderView {
    /// The default: both strings empty.
    pub open spec fn defaults() -> BootloaderView {
        BootloaderView { kind: Seq::empty(), location: Seq::empty() }
    }
}

impl Default for Bootloader {
    fn default() -> (r: Bootloader)
        ensures
            r@ == BootloaderView::defaults(),
    {
        Bootloader { kind: String::new(), location: String::new() }
    }
}

/// Locales, time zone and keyboard maps.
#[derive(Debug, PartialEq, Clone)]
pub struct Locale {
    /// The locale identifiers.
    pub locale: Vec<String>,
    pub timezone: String,
    /// The keymap of the virtual console.
    pub virtkeymap: String,
    /// The keymap under X11.
    pub x11keymap: String,
}

/// The mathematical value of a `Locale`.
pub struct LocaleView {
    pub locale: Seq<Seq<char>>,
    pub timezone: Seq<char>,
    pub virtkeymap: Seq<char>,
    pub x11keymap: Seq<char>,
}

impl View for Locale {
    type V = LocaleView;

    open spec fn view(&self) -> LocaleView {
        LocaleView {
            locale: Seq::new(self.locale@.len(), |i: int| self.locale@[i]@),
            timezone: self.timezone@,
            virtkeymap: self.virtkeymap@,
            x11keymap: self.x11keymap@,
        }
    }
}

impl LocaleView {
    /// The default: no locale, every string empty.
    pub open spec fn defaults() -> LocaleView {
        LocaleView {
            locale: Seq::empty(),
            timezone: Seq::empty(),
            virtkeymap: Seq::empty(),
            x11keymap: Seq::empty(),
        }
    }
}

impl Default for Locale {
    fn default() -> (r: Locale)
        ensures
            r@ == LocaleView::defaults(),
    {
        let r = Locale {
            locale: Vec::new(),
            timezone: String::new(),
            virtkeymap: String::new(),
            x11keymap: String::new(),
        };
        assert(r@.locale =~= Seq::empty());
        r
    }
}

/// Host name and IPv6.
#[derive(Debug, PartialEq, Clone)]
pub struct Networking {
    pub hostname: String,
    /// Whether IPv6 is enabled.
    pub ipv6: bool,
}

/// The mathematical value of a `Networking`.
pub struct NetworkingView {
    pub hostname: Seq<char>,
    pub ipv6: bool,
}

impl View for Networking {
    type V = NetworkingView;

    open spec fn view(&self) -> NetworkingView {
        NetworkingView { hostname: self.hostname@, ipv6: self.ipv6 }
    }
}

impl NetworkingView {
    /// The default: no host name, IPv6 disabled.
    pub open spec fn defaults() -> NetworkingView {
        NetworkingView { hostname: Seq::empty(), ipv6: false }
    }
}

impl Default for Networking {
    fn default() -> (r: Networking)
        ensures
            r@ == NetworkingView::defaults(),
    {
        Networking { hostname: String::new(), ipv6: false }
    }
}

/// Tuning of a build.
#[derive(Debug, PartialEq, Clone)]
pub struct Params {
    /// The number of CPU cores.
    pub cores: i32,
    /// The number of parallel jobs.
    pub jobs: i32,
    /// Whether intermediate artifacts are kept.
    pub keep: bool,
}

impl ParamsView {
    /// The default: zero cores, zero jobs, nothing kept.
    pub open spec fn defaults() -> ParamsView {
        ParamsView { cores: 0, jobs: 0, keep: false }
    }
}

/// The mathematical value of a `Params`.
pub struct ParamsView {
    pub cores: int,
    pub jobs: int,
    pub keep: bool,
}

impl View for Params {
    type V = ParamsView;

    open spec fn view(&self) -> ParamsView {
        ParamsView { cores: self.cores as int, jobs: self.jobs as int, keep: self.keep }
    }
}

impl Default for Params {
    fn default() -> (r: Params)
        ensures
            r@ == ParamsView::defaults(),
    {
        Params { cores: 0, jobs: 0, keep: false }
    }
}

} // verus!
