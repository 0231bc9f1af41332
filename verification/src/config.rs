//! The configuration of one installation session.
//!
//! A `Config` starts as the default and takes what an incoming document
//! carries. Reading is all or nothing: a document that cannot be read
//! leaves the default, never a part of itself. Writing leaves out what is
//! only held for the running process.
use crate::json::{Json, JsonView};
use crate::members::{open_member, read_open, read_text, text_member, LoadError};
use crate::partition::{Partition, PartitionView};
use crate::serde_specs::{parsed, printed};
use vstd::prelude::*;

verus! {

/// The state of the installer: the disk layout, and one open value for
/// each other section, whose shape depends on what was selected and is
/// checked where it is used.
#[allow(non_snake_case)]
#[derive(Debug, PartialEq, Clone)]
pub struct Config {
    pub partition: Partition,
    pub bootloader: Json,
    pub locale: Json,
    pub networking: Json,
    pub users: Json,
    pub rootpass: Json,
    pub desktop: Json,
    pub theme: Json,
    pub displayManager: Json,
    pub browser: Json,
    /// A cache of package data. Never written out.
    pub packagesStore: Json,
    pub extra_packages: Json,
    pub kernel: Json,
    pub snapper: Json,
    pub zramd: Json,
    pub hardened: Json,
    pub flatpak: Json,
    pub params: Json,
    pub terminal: Json,
    /// The distribution family that is installed. Never written out.
    pub base: String,
}

/// The mathematical value of a `Config`.
#[allow(non_snake_case)]
pub struct ConfigView {
    pub partition: PartitionView,
    pub bootloader: JsonView,
    pub locale: JsonView,
    pub networking: JsonView,
    pub users: JsonView,
    pub rootpass: JsonView,
    pub desktop: JsonView,
    pub theme: JsonView,
    pub displayManager: JsonView,
    pub browser: JsonView,
    pub packagesStore: JsonView,
    pub extra_packages: JsonView,
    pub kernel: JsonView,
    pub snapper: JsonView,
    pub zramd: JsonView,
    pub hardened: JsonView,
    pub flatpak: JsonView,
    pub params: JsonView,
    pub terminal: JsonView,
    pub base: Seq<char>,
}

impl View for Config {
    type V = ConfigView;

    open spec fn view(&self) -> ConfigView {
        ConfigView {
            partition: self.partition@,
            bootloader: self.bootloader@,
            locale: self.locale@,
            networking: self.networking@,
            users: self.users@,
            rootpass: self.rootpass@,
            desktop: self.desktop@,
            theme: self.theme@,
            displayManager: self.displayManager@,
            browser: self.browser@,
            packagesStore: self.packagesStore@,
            extra_packages: self.extra_packages@,
            kernel: self.kernel@,
            snapper: self.snapper@,
            zramd: self.zramd@,
            hardened: self.hardened@,
            flatpak: self.flatpak@,
            params: self.params@,
            terminal: self.terminal@,
            base: self.base@,
        }
    }
}

impl ConfigView {
    /// The default: the default layout, every open value null, and `arch`
    /// as the distribution family.
    pub open spec fn defaults() -> ConfigView {
        ConfigView {
            partition: PartitionView::defaults(),
            bootloader: JsonView::Null,
            locale: JsonView::Null,
            networking: JsonView::Null,
            users: JsonView::Null,
            rootpass: JsonView::Null,
            desktop: JsonView::Null,
            theme: JsonView::Null,
            displayManager: JsonView::Null,
            browser: JsonView::Null,
            packagesStore: JsonView::Null,
            extra_packages: JsonView::Null,
            kernel: JsonView::Null,
            snapper: JsonView::Null,
            zramd: JsonView::Null,
            hardened: JsonView::Null,
            flatpak: JsonView::Null,
            params: JsonView::Null,
            terminal: JsonView::Null,
            base: "arch"@,
        }
    }

    /// This configuration with the members of `doc` laid over it: each
    /// field whose key `doc` has takes the member's value, every other
    /// field stays, and members under other keys are passed over. `None`
    /// where `doc` is no object, its `partition` describes no layout, or its
    /// `base` is no string.
    pub open spec fn overlay(self, doc: JsonView) -> Option<ConfigView> {
        let partition = match doc.member("partition"@) {
            Some(layout) => self.partition.overlay(layout),
            None => Some(self.partition),
        };
        let base = text_member(doc, "base"@, self.base);
        if doc is Object && partition is Some && base is Some {
            Some(
                ConfigView {
                    partition: partition->0,
                    bootloader: open_member(doc, "bootloader"@, self.bootloader),
                    locale: open_member(doc, "locale"@, self.locale),
                    networking: open_member(doc, "networking"@, self.networking),
                    users: open_member(doc, "users"@, self.users),
                    rootpass: open_member(doc, "rootpass"@, self.rootpass),
                    desktop: open_member(doc, "desktop"@, self.desktop),
                    theme: open_member(doc, "theme"@, self.theme),
                    displayManager: open_member(doc, "displayManager"@, self.displayManager),
                    browser: open_member(doc, "browser"@, self.browser),
                    packagesStore: open_member(doc, "packagesStore"@, self.packagesStore),
                    extra_packages: open_member(doc, "extra_packages"@, self.extra_packages),
                    kernel: open_member(doc, "kernel"@, self.kernel),
                    snapper: open_member(doc, "snapper"@, self.snapper),
                    zramd: open_member(doc, "zramd"@, self.zramd),
                    hardened: open_member(doc, "hardened"@, self.hardened),
                    flatpak: open_member(doc, "flatpak"@, self.flatpak),
                    params: open_member(doc, "params"@, self.params),
                    terminal: open_member(doc, "terminal"@, self.terminal),
                    base: base->0,
                },
            )
        } else {
            None
        }
    }

    /// What loading yields, given what the parser made of the text: the
    /// default with the document laid over it, and the default itself where
    /// there is no document or it cannot be laid over.
    pub open spec fn loaded(doc: Option<JsonView>) -> ConfigView {
        match doc {
            Some(d) => match ConfigView::defaults().overlay(d) {
                Some(config) => config,
                None => ConfigView::defaults(),
            },
            None => ConfigView::defaults(),
        }
    }

    /// The document written for this configuration: one member for each
    /// field but the package cache and the distribution family.
    pub open spec fn encode(self) -> JsonView {
        JsonView::Object(
            Map::<Seq<char>, JsonView>::empty().insert("partition"@, self.partition.encode()).insert(
                "bootloader"@,
                self.bootloader,
            ).insert("locale"@, self.locale).insert("networking"@, self.networking).insert(
                "users"@,
                self.users,
            ).insert("rootpass"@, self.rootpass).insert("desktop"@, self.desktop).insert(
                "theme"@,
                self.theme,
            ).insert("displayManager"@, self.displayManager).insert("browser"@, self.browser).insert(
                "extra_packages"@,
                self.extra_packages,
            ).insert("kernel"@, self.kernel).insert("snapper"@, self.snapper).insert(
                "zramd"@,
                self.zramd,
            ).insert("hardened"@, self.hardened).insert("flatpak"@, self.flatpak).insert(
                "params"@,
                self.params,
            ).insert("terminal"@, self.terminal),
        )
    }

    /// This configuration as it is after being written out and read back:
    /// the fields that are never written are at their defaults.
    pub open spec fn durable(self) -> ConfigView {
        ConfigView {
            partition: self.partition.durable(),
            packagesStore: JsonView::Null,
            base: "arch"@,
            ..self
        }
    }
}

impl Default for Config {
    fn default() -> (r: Config)
        ensures
            r@ == ConfigView::defaults(),
    {
        Config {
            partition: Partition::default(),
            bootloader: Json::Null,
            locale: Json::Null,
            networking: Json::Null,
            users: Json::Null,
            rootpass: Json::Null,
            desktop: Json::Null,
            theme: Json::Null,
            displayManager: Json::Null,
            browser: Json::Null,
            packagesStore: Json::Null,
            extra_packages: Json::Null,
            kernel: Json::Null,
            snapper: Json::Null,
            zramd: Json::Null,
            hardened: Json::Null,
            flatpak: Json::Null,
            params: Json::Null,
            terminal: Json::Null,
            base: "arch".to_owned(),
        }
    }
}

impl Config {
    /// Lays the members of `doc` over this configuration.
    pub fn overlay(self, doc: &Json) -> (r: Result<Config, LoadError>)
        ensures
            match self@.overlay(doc@) {
                Some(config) => r matches Ok(c) && c@ == config,
                None => r matches Err(LoadError::Mismatch),
            },
    {
        if !doc.is_object() {
            return Err(LoadError::Mismatch);
        }
        let partition = match doc.get("partition") {
            Some(layout) => match self.partition.overlay(layout) {
                Ok(x) => x,
                Err(_) => { return Err(LoadError::Mismatch); },
            },
            None => self.partition,
        };
        let base = match read_text(doc, "base", self.base) {
            Ok(x) => x,
            Err(_) => { return Err(LoadError::Mismatch); },
        };
        Ok(
            Config {
                partition,
                bootloader: read_open(doc, "bootloader", self.bootloader),
                locale: read_open(doc, "locale", self.locale),
                networking: read_open(doc, "networking", self.networking),
                users: read_open(doc, "users", self.users),
                rootpass: read_open(doc, "rootpass", self.rootpass),
                desktop: read_open(doc, "desktop", self.desktop),
                theme: read_open(doc, "theme", self.theme),
                displayManager: read_open(doc, "displayManager", self.displayManager),
                browser: read_open(doc, "browser", self.browser),
                packagesStore: read_open(doc, "packagesStore", self.packagesStore),
                extra_packages: read_open(doc, "extra_packages", self.extra_packages),
                kernel: read_open(doc, "kernel", self.kernel),
                snapper: read_open(doc, "snapper", self.snapper),
                zramd: read_open(doc, "zramd", self.zramd),
                hardened: read_open(doc, "hardened", self.hardened),
                flatpak: read_open(doc, "flatpak", self.flatpak),
                params: read_open(doc, "params", self.params),
                terminal: read_open(doc, "terminal", self.terminal),
                base,
            },
        )
    }

    /// Reads a configuration from JSON text: the default with the text's
    /// document laid over it. Fails, with nothing read, where the text is
    /// no JSON document (`Syntax`) or the document does not have the
    /// configuration's shape (`Mismatch`).
    pub fn load(text: &str) -> (r: Result<Config, LoadError>)
        ensures
            match parsed(text@) {
                Some(doc) => match ConfigView::defaults().overlay(doc) {
                    Some(config) => r matches Ok(c) && c@ == config,
                    None => r matches Err(LoadError::Mismatch),
                },
                None => r matches Err(LoadError::Syntax),
            },
    {
        match Json::parse(text) {
            Some(doc) => Config::default().overlay(&doc),
            None => Err(LoadError::Syntax),
        }
    }

    /// Reads a configuration from JSON text, and falls back to the default
    /// where that fails: the caller always gets a configuration.
    pub fn from_json_string(v: String) -> (r: Config)
        ensures
            r@ == ConfigView::loaded(parsed(v@)),
    {
        match Config::load(v.as_str()) {
            Ok(config) => config,
            Err(_) => Config::default(),
        }
    }

    /// The document written for this configuration.
    pub fn to_json(&self) -> (r: Json)
        ensures
            r@ == self@.encode(),
    {
        Json::object().with("partition", self.partition.to_json()).with(
            "bootloader",
            self.bootloader.clone(),
        ).with("locale", self.locale.clone()).with("networking", self.networking.clone()).with(
            "users",
            self.users.clone(),
        ).with("rootpass", self.rootpass.clone()).with("desktop", self.desktop.clone()).with(
            "theme",
            self.theme.clone(),
        ).with("displayManager", self.displayManager.clone()).with(
            "browser",
            self.browser.clone(),
        ).with("extra_packages", self.extra_packages.clone()).with(
            "kernel",
            self.kernel.clone(),
        ).with("snapper", self.snapper.clone()).with("zramd", self.zramd.clone()).with(
            "hardened",
            self.hardened.clone(),
        ).with("flatpak", self.flatpak.clone()).with("params", self.params.clone()).with(
            "terminal",
            self.terminal.clone(),
        )
    }

    /// The JSON text written for this configuration.
    pub fn to_json_string(&self) -> (r: String)
        ensures
            r@ == printed(self@.encode()),
    {
        self.to_json().to_text()
    }
}

} // verus!
