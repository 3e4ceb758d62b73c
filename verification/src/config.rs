//! The settings, their mathematical model, and the store that serves them.
//!
//! A `ConfigStore` starts out empty, is filled once by `init_config`, and
//! serves the same settings from then on.

use vstd::prelude::*;
use crate::loader::{Loader, LoaderModel};

verus! {

/// One resource override: the bundled resource `apk` is replaced by the
/// resource-pack file `rp`.
#[derive(Debug, Clone, PartialEq, Eq)]
pub struct CustomRpp {
    pub apk: String,
    pub rp: String,
}

/// What an override says, as plain text.
pub struct RppModel {
    pub apk: Seq<char>,
    pub rp: Seq<char>,
}

impl View for CustomRpp {
    type V = RppModel;

    open spec fn view(&self) -> RppModel {
        RppModel { apk: self.apk@, rp: self.rp@ }
    }
}

/// What a list of overrides says, in order.
pub open spec fn rpp_models(rpps: Seq<CustomRpp>) -> Seq<RppModel> {
    rpps.map_values(|r: CustomRpp| r@)
}

/// Every setting of the mod.
#[derive(Debug, Clone, PartialEq, Eq)]
pub struct ModConfig {
    pub no_hurt_cam: bool,
    pub no_fog: bool,
    pub particles_disabler: bool,
    pub java_clouds: bool,
    pub java_cubemap: bool,
    pub classic_skins: bool,
    pub custom_rpp: Vec<CustomRpp>,
}

/// What a `ModConfig` says: the six toggles and the overrides in order.
pub struct ConfigModel {
    pub no_hurt_cam: bool,
    pub no_fog: bool,
    pub particles_disabler: bool,
    pub java_clouds: bool,
    pub java_cubemap: bool,
    pub classic_skins: bool,
    pub custom_rpp: Seq<RppModel>,
}

impl View for ModConfig {
    type V = ConfigModel;

    open spec fn view(&self) -> ConfigModel {
        ConfigModel {
            no_hurt_cam: self.no_hurt_cam,
            no_fog: self.no_fog,
            particles_disabler: self.particles_disabler,
            java_clouds: self.java_clouds,
            java_cubemap: self.java_cubemap,
            classic_skins: self.classic_skins,
            custom_rpp: rpp_models(self.custom_rpp@),
        }
    }
}

/// The settings of a fresh installation: only the hurt-camera shake is
/// switched off, and nothing is overridden.
pub open spec fn default_model() -> ConfigModel {
    ConfigModel {
        no_hurt_cam: true,
        no_fog: false,
        particles_disabler: false,
        java_clouds: false,
        java_cubemap: false,
        classic_skins: false,
        custom_rpp: Seq::empty(),
    }
}

impl Default for ModConfig {
    fn default() -> (config: ModConfig)
        ensures
            config@ == default_model(),
    {
        let config = ModConfig {
            no_hurt_cam: true,
            no_fog: false,
            particles_disabler: false,
            java_clouds: false,
            java_cubemap: false,
            classic_skins: false,
            custom_rpp: Vec::new(),
        };
        assert(config@.custom_rpp =~= Seq::empty());
        config
    }
}

/// The directory that holds the settings file.
pub const CONFIG_DIR: &'static str = "/storage/emulated/0/games/originmod";

/// The settings file.
pub const CONFIG_FILE: &'static str = "/storage/emulated/0/games/originmod/config.json";

/// Holds the settings of this run once start-up has determined them.
#[derive(Debug)]
pub struct ConfigStore {
    slot: Option<ModConfig>,
}

impl View for ConfigStore {
    type V = Option<ConfigModel>;

    /// `None` before initialisation, the settings after it.
    closed spec fn view(&self) -> Option<ConfigModel> {
        match self.slot {
            Some(config) => Some(config@),
            None => None,
        }
    }
}

impl ConfigStore {
    /// A store that has not been initialised.
    pub fn new() -> (store: ConfigStore)
        ensures
            store@ is None,
    {
        ConfigStore { slot: None }
    }

    /// Whether the store has been initialised.
    pub fn is_initialized(&self) -> (ready: bool)
        ensures
            ready == (self@ is Some),
    {
        self.slot.is_some()
    }
}

/// Initialises the store with the settings that start-up ended with. This is
/// the only way into a store, and it is taken once: the store must still be
/// empty, and start-up must have finished.
pub fn init_config(store: &mut ConfigStore, loader: Loader)
    requires
        old(store)@ is None,
        loader@ is Ready,
    ensures
        final(store)@ is Some,
        loader@ == LoaderModel::Ready(final(store)@.unwrap()),
{
    match loader {
        Loader::Ready(config) => {
            store.slot = Some(config);
        },
        _ => {},
    }
}

/// The settings of this run. The store must have been initialised.
pub fn get_config(store: &ConfigStore) -> (config: &ModConfig)
    requires
        store@ is Some,
    ensures
        store@ == Some(config@),
{
    store.slot.as_ref().unwrap()
}

/// Whether the hurt-camera shake is switched off.
pub fn is_no_hurt_cam_enabled(store: &ConfigStore) -> (enabled: bool)
    requires
        store@ is Some,
    ensures
        enabled == store@.unwrap().no_hurt_cam,
{
    get_config(store).no_hurt_cam
}

/// Whether fog is switched off.
pub fn is_no_fog_enabled(store: &ConfigStore) -> (enabled: bool)
    requires
        store@ is Some,
    ensures
        enabled == store@.unwrap().no_fog,
{
    get_config(store).no_fog
}

/// Whether particle effects are switched off.
pub fn is_particles_disabler_enabled(store: &ConfigStore) -> (enabled: bool)
    requires
        store@ is Some,
    ensures
        enabled == store@.unwrap().particles_disabler,
{
    get_config(store).particles_disabler
}

/// Whether clouds are drawn as in the Java edition.
pub fn is_java_clouds_enabled(store: &ConfigStore) -> (enabled: bool)
    requires
        store@ is Some,
    ensures
        enabled == store@.unwrap().java_clouds,
{
    get_config(store).java_clouds
}

/// Whether the sky cubemap of the Java edition is used.
pub fn is_java_cubemap_enabled(store: &ConfigStore) -> (enabled: bool)
    requires
        store@ is Some,
    ensures
        enabled == store@.unwrap().java_cubemap,
{
    get_config(store).java_cubemap
}

/// Whether classic skins are used.
pub fn is_classic_skins_enabled(store: &ConfigStore) -> (enabled: bool)
    requires
        store@ is Some,
    ensures
        enabled == store@.unwrap().classic_skins,
{
    get_config(store).classic_skins
}

/// The resource overrides, in the order of the settings file.
pub fn get_custom_rpp(store: &ConfigStore) -> (overrides: &Vec<CustomRpp>)
    requires
        store@ is Some,
    ensures
        rpp_models(overrides@) == store@.unwrap().custom_rpp,
{
    &get_config(store).custom_rpp
}

} // verus!
