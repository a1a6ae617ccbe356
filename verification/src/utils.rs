//! Files, settings and the address hash.

use crate::address_map::AddressMap;
use crate::devices::enums::{DeviceData, DeviceDataView, DeviceType};
use crate::text::{joined, joined3};
use aes::cipher::{Array, BlockCipherEncrypt, KeyInit};
use aes::Aes128;
use vstd::prelude::*;

verus! {

// Paths

/// A path with one more component.
pub open spec fn extended(base: Seq<char>, component: Seq<char>) -> Seq<char> {
    if base.len() == 0 {
        component
    } else if base.last() == '/' {
        base + component
    } else {
        base + "/"@ + component
    }
}

/// A path with one more component.
fn join(base: &str, component: &str) -> (path: String)
    ensures
        path@ == extended(base@, component@),
{
    let n: usize = base.unicode_len();
    if n == 0 {
        component.to_owned()
    } else if base.get_char(n - 1) == '/' {
        joined(base, component)
    } else {
        joined3(base, "/", component)
    }
}

/// A directory named by an environment variable, or its place below the home
/// directory where the variable is not set. An unset home directory counts
/// as empty.
pub open spec fn directory(
    variable: Option<Seq<char>>,
    home: Option<Seq<char>>,
    below_home: Seq<char>,
) -> Seq<char> {
    match variable {
        Some(dir) => dir,
        None => match home {
            Some(h) => h + below_home,
            None => below_home,
        },
    }
}

/// The text of an environment variable that may be unset.
pub open spec fn variable(value: Option<&str>) -> Option<Seq<char>> {
    match value {
        Some(v) => Some(v@),
        None => None,
    }
}

fn directory_or_below(value: Option<&str>, home: Option<&str>, below_home: &str) -> (dir: String)
    ensures
        dir@ == directory(variable(value), variable(home), below_home@),
{
    match value {
        Some(dir) => dir.to_owned(),
        None => match home {
            Some(h) => joined(h, below_home),
            None => below_home.to_owned(),
        },
    }
}

/// The path of devices.json, from XDG_DATA_HOME and HOME.
pub fn get_devices_path(xdg_data_home: Option<&str>, home: Option<&str>) -> (path: String)
    ensures
        path@ == extended(
            extended(
                directory(variable(xdg_data_home), variable(home), "/.local/share"@),
                "librepods"@,
            ),
            "devices.json"@,
        ),
{
    let dir = directory_or_below(xdg_data_home, home, "/.local/share");
    join(join(dir.as_str(), "librepods").as_str(), "devices.json")
}

/// The path of preferences.json, from XDG_CONFIG_HOME and HOME.
pub fn get_preferences_path(xdg_config_home: Option<&str>, home: Option<&str>) -> (path: String)
    ensures
        path@ == extended(
            extended(
                directory(variable(xdg_config_home), variable(home), "/.config"@),
                "librepods"@,
            ),
            "preferences.json"@,
        ),
{
    let dir = directory_or_below(xdg_config_home, home, "/.config");
    join(join(dir.as_str(), "librepods").as_str(), "preferences.json")
}

/// The path of app_settings.json, from XDG_CONFIG_HOME and HOME.
pub fn get_app_settings_path(xdg_config_home: Option<&str>, home: Option<&str>) -> (path: String)
    ensures
        path@ == extended(
            extended(
                directory(variable(xdg_config_home), variable(home), "/.config"@),
                "librepods"@,
            ),
            "app_settings.json"@,
        ),
{
    let dir = directory_or_below(xdg_config_home, home, "/.config");
    join(join(dir.as_str(), "librepods").as_str(), "app_settings.json")
}

/// Where earlier versions kept app_settings.json, from XDG_DATA_HOME and HOME.
pub fn get_old_app_settings_path(xdg_data_home: Option<&str>, home: Option<&str>) -> (path: String)
    ensures
        path@ == extended(
            directory(variable(xdg_data_home), variable(home), "/.local/share"@),
            "app_settings.json"@,
        ),
{
    let dir = directory_or_below(xdg_data_home, home, "/.local/share");
    join(dir.as_str(), "app_settings.json")
}

/// What moves app_settings.json to its new place.
#[derive(Debug, Clone, Copy, PartialEq, Eq, Structural)]
pub enum Migration {
    /// Nothing to do.
    Nothing,
    /// Copy the old file to the new place.
    Copy,
    /// The copy worked: remove the old file.
    RemoveOld,
}

/// Whether to copy the old app_settings.json: only where it exists and the
/// new one does not, so a newer file is never overwritten.
pub fn start_migration(old_exists: bool, new_exists: bool) -> (step: Migration)
    ensures
        step == (if old_exists && !new_exists {
            Migration::Copy
        } else {
            Migration::Nothing
        }),
{
    if old_exists && !new_exists {
        Migration::Copy
    } else {
        Migration::Nothing
    }
}

/// What follows the copy: the old file goes only once the new one is there.
pub fn after_copy(copied: bool) -> (step: Migration)
    ensures
        step == (if copied {
            Migration::RemoveOld
        } else {
            Migration::Nothing
        }),
{
    if copied {
        Migration::RemoveOld
    } else {
        Migration::Nothing
    }
}

// Devices

/// The devices with one more, unless it is among them already.
pub open spec fn registered(
    devices: Map<Seq<char>, DeviceDataView>,
    mac: Seq<char>,
    name: Seq<char>,
    type_: DeviceType,
) -> Map<Seq<char>, DeviceDataView> {
    if devices.contains_key(mac) {
        devices
    } else {
        devices.insert(mac, DeviceDataView { name, type_, information: None })
    }
}

/// Adds a device that is not known yet. A known one stays as it is.
pub fn ensure_device_registered(
    devices: &mut AddressMap<DeviceData>,
    mac: &str,
    name: &str,
    type_: DeviceType,
)
    requires
        old(devices).wf(),
    ensures
        final(devices).wf(),
        final(devices)@ == registered(old(devices)@, mac@, name@, type_),
{
    if devices.contains_key(mac) {
        return;
    }
    devices.insert(
        mac.to_string(),
        DeviceData { name: name.to_string(), type_, information: None },
    );
}

/// Registering a device twice is the same as registering it once, and it
/// never changes a device that was known.
pub proof fn registering_keeps_known_devices(
    devices: Map<Seq<char>, DeviceDataView>,
    mac: Seq<char>,
    name: Seq<char>,
    type_: DeviceType,
    known: Seq<char>,
)
    ensures
        registered(registered(devices, mac, name, type_), mac, name, type_) == registered(
            devices,
            mac,
            name,
            type_,
        ),
        registered(devices, mac, name, type_).contains_key(mac),
        devices.contains_key(known) ==> registered(devices, mac, name, type_).contains_key(known)
            && registered(devices, mac, name, type_)[known] == devices[known],
{
}

/// The devices with a new name for one of them.
pub open spec fn renamed(
    devices: Map<Seq<char>, DeviceDataView>,
    mac: Seq<char>,
    name: Seq<char>,
) -> Map<Seq<char>, DeviceDataView> {
    if devices.contains_key(mac) {
        devices.insert(mac, DeviceDataView { name, ..devices[mac] })
    } else {
        devices
    }
}

/// Gives a known device a new name.
pub fn rename_device(devices: &mut AddressMap<DeviceData>, mac: &str, name: String)
    requires
        old(devices).wf(),
    ensures
        final(devices).wf(),
        final(devices)@ == renamed(old(devices)@, mac@, name@),
{
    match devices.remove(mac) {
        Some(device) => {
            let mut device = device;
            device.name = name;
            devices.insert(mac.to_string(), device);
        },
        None => {},
    }
}

/// What came of reading devices.json.
#[derive(Debug)]
pub enum DevicesRead {
    Devices(AddressMap<DeviceData>),
    /// The contents are not a list of devices.
    Invalid(String),
    /// There is no such file.
    Missing,
    /// The file could not be read.
    Failed(String),
}

/// Why devices.json is not written.
#[derive(Debug, Clone, PartialEq, Eq)]
pub enum DevicesError {
    /// The file holds something else; it stays as it is.
    Invalid(String),
    /// The file could not be read.
    Failed(String),
}

/// Read devices.json, change it, and write it back: the devices to start
/// from. Refuses to write over a file that cannot be parsed: starting from
/// an empty map there would silently drop every saved device.
pub fn update_devices_file(path: &str, read: DevicesRead) -> (devices: Result<
    AddressMap<DeviceData>,
    DevicesError,
>)
    requires
        read matches DevicesRead::Devices(d) ==> d.wf(),
    ensures
        match read {
            DevicesRead::Devices(d) => devices == Ok::<AddressMap<DeviceData>, DevicesError>(d),
            DevicesRead::Invalid(e) => devices matches Err(DevicesError::Invalid(m)) && m@ == path@
                + " is not valid, not overwriting it: "@ + e@,
            DevicesRead::Missing => devices matches Ok(d) && d.wf() && d@ == Map::<
                Seq<char>,
                DeviceDataView,
            >::empty(),
            DevicesRead::Failed(e) => devices matches Err(DevicesError::Failed(m)) && m@ == e@,
        },
{
    match read {
        DevicesRead::Devices(d) => Ok(d),
        DevicesRead::Invalid(e) => Err(
            DevicesError::Invalid(
                joined3(path, " is not valid, not overwriting it: ", e.as_str()),
            ),
        ),
        DevicesRead::Missing => Ok(AddressMap::new()),
        DevicesRead::Failed(e) => Err(DevicesError::Failed(e)),
    }
}

// Codecs

/// Preferred A2DP codec. The chosen one is tried first, the rest act as fallbacks.
#[derive(Debug, Clone, Copy, PartialEq, Eq, Structural)]
pub enum PreferredCodec {
    Aac,
    SbcXq,
    Sbc,
}

impl Default for PreferredCodec {
    fn default() -> (codec: PreferredCodec)
        ensures
            codec == PreferredCodec::Aac,
    {
        PreferredCodec::Aac
    }
}

impl PreferredCodec {
    /// Card profile of the codec.
    pub open spec fn profile(self) -> Seq<char> {
        match self {
            PreferredCodec::Aac => "a2dp-sink"@,
            PreferredCodec::SbcXq => "a2dp-sink-sbc_xq"@,
            PreferredCodec::Sbc => "a2dp-sink-sbc"@,
        }
    }

    /// The codecs to try, most preferred first: the chosen one, then the
    /// others in their usual order.
    pub open spec fn order(self) -> Seq<PreferredCodec> {
        match self {
            PreferredCodec::Aac => seq![
                PreferredCodec::Aac,
                PreferredCodec::SbcXq,
                PreferredCodec::Sbc,
            ],
            PreferredCodec::SbcXq => seq![
                PreferredCodec::SbcXq,
                PreferredCodec::Aac,
                PreferredCodec::Sbc,
            ],
            PreferredCodec::Sbc => seq![
                PreferredCodec::Sbc,
                PreferredCodec::Aac,
                PreferredCodec::SbcXq,
            ],
        }
    }

    /// The codecs in menu order.
    pub fn all() -> (all: [PreferredCodec; 3])
        ensures
            all@ == seq![PreferredCodec::Aac, PreferredCodec::SbcXq, PreferredCodec::Sbc],
    {
        [PreferredCodec::Aac, PreferredCodec::SbcXq, PreferredCodec::Sbc]
    }

    /// PulseAudio/PipeWire card profile name for this codec.
    pub fn profile_name(self) -> (name: &'static str)
        ensures
            name@ == self.profile(),
    {
        match self {
            PreferredCodec::Aac => "a2dp-sink",
            PreferredCodec::SbcXq => "a2dp-sink-sbc_xq",
            PreferredCodec::Sbc => "a2dp-sink-sbc",
        }
    }

    /// Profiles to try, most preferred first.
    pub fn profile_order(self) -> (names: Vec<&'static str>)
        ensures
            names@.map_values(|name: &'static str| name@) == self.order().map_values(
                |codec: PreferredCodec| codec.profile(),
            ),
    {
        let all = PreferredCodec::all();
        let mut names: Vec<&'static str> = vec![self.profile_name()];
        let mut i: usize = 0;
        let ghost mut tried: Seq<PreferredCodec> = seq![self];
        while i < 3
            invariant
                i <= 3,
                all@ == seq![PreferredCodec::Aac, PreferredCodec::SbcXq, PreferredCodec::Sbc],
                names@.len() == tried.len(),
                forall|j: int|
                    0 <= j < tried.len() ==> (#[trigger] names@[j])@ == tried[j].profile(),
                tried == seq![self] + all@.take(i as int).filter(
                    |codec: PreferredCodec| codec != self,
                ),
            decreases 3 - i,
        {
            proof {
                let others = |codec: PreferredCodec| codec != self;
                let before = all@.take(i as int);
                assert(all@.take(i + 1) =~= before.push(all@[i as int]));
                assert(before.push(all@[i as int]).drop_last() =~= before);
                reveal(Seq::filter);
            }
            if all[i] != self {
                names.push(all[i].profile_name());
                proof {
                    tried = tried.push(all@[i as int]);
                }
            }
            i = i + 1;
        }
        proof {
            let others = |codec: PreferredCodec| codec != self;
            assert(all@.take(3) =~= all@);
            let a = PreferredCodec::Aac;
            let x = PreferredCodec::SbcXq;
            let s = PreferredCodec::Sbc;
            reveal(Seq::filter);
            assert(all@.drop_last() =~= seq![a, x]);
            assert(seq![a, x].drop_last() =~= seq![a]);
            assert(seq![a].drop_last() =~= Seq::<PreferredCodec>::empty());
            assert(Seq::<PreferredCodec>::empty().filter(others) =~= Seq::<
                PreferredCodec,
            >::empty());
            let none = Seq::<PreferredCodec>::empty();
            let first = if a != self {
                none.push(a)
            } else {
                none
            };
            assert(seq![a].filter(others) =~= first);
            let second = if x != self {
                first.push(x)
            } else {
                first
            };
            assert(seq![a, x].filter(others) =~= second);
            let third = if s != self {
                second.push(s)
            } else {
                second
            };
            assert(all@.filter(others) =~= third);
            assert(tried =~= self.order());
        }
        names
    }

    /// The name of the codec.
    pub fn label(self) -> (label: &'static str)
        ensures
            label@ == match self {
                PreferredCodec::Aac => "AAC"@,
                PreferredCodec::SbcXq => "SBC-XQ"@,
                PreferredCodec::Sbc => "SBC"@,
            },
    {
        match self {
            PreferredCodec::Aac => "AAC",
            PreferredCodec::SbcXq => "SBC-XQ",
            PreferredCodec::Sbc => "SBC",
        }
    }
}

/// The chosen codec is tried first, and each codec is tried exactly once.
pub proof fn every_codec_is_tried_once(chosen: PreferredCodec, codec: PreferredCodec)
    ensures
        chosen.order()[0] == chosen,
        chosen.order().len() == 3,
        chosen.order().no_duplicates(),
        chosen.order().contains(codec),
{
    let order = chosen.order();
    assert(order[0] == codec || order[1] == codec || order[2] == codec);
}

// The address hash

/// The ciphertext that AES-128 gives for a key and one block, both of
/// sixteen bytes.
pub uninterp spec fn aes128_block(key: Seq<u8>, block: Seq<u8>) -> Seq<u8>;

/// One block under AES-128: `aes::Aes128` made from the key, and its
/// `encrypt_block` on the block. Claims that the result is the same for the
/// same key and block.
#[verifier::external_body]
fn aes128_encrypt(key: [u8; 16], block: [u8; 16]) -> (encrypted: [u8; 16])
    ensures
        encrypted@ == aes128_block(key@, block@),
{
    let cipher = Aes128::new(&Array::from(key));
    let mut block = Array::from(block);
    cipher.encrypt_block(&mut block);
    block.into()
}

/// Sixteen bytes, last first.
pub fn reversed(bytes: &[u8; 16]) -> (swapped: [u8; 16])
    ensures
        swapped@ == bytes@.reverse(),
{
    let mut swapped: [u8; 16] = [0; 16];
    let mut i: usize = 0;
    while i < 16
        invariant
            i <= 16,
            forall|j: int| 0 <= j < i ==> swapped@[j] == bytes@[15 - j],
        decreases 16 - i,
    {
        swapped[i] = bytes[15 - i];
        i = i + 1;
    }
    proof {
        assert(swapped@ =~= bytes@.reverse());
    }
    swapped
}

/// The security function e: AES-128 with all bytes in reverse order.
pub open spec fn encrypted(key: Seq<u8>, data: Seq<u8>) -> Seq<u8> {
    aes128_block(key.reverse(), data.reverse()).reverse()
}

fn e(key: &[u8; 16], data: &[u8; 16]) -> (result: [u8; 16])
    ensures
        result@ == encrypted(key@, data@),
{
    reversed(&aes128_encrypt(reversed(key), reversed(data)))
}

/// The random part of an address, padded with zeros to a block.
pub open spec fn padded(r: Seq<u8>) -> Seq<u8> {
    r + Seq::new(13, |i: int| 0u8)
}

/// The random part of an address, padded with zeros to a block.
pub fn pad(r: &[u8; 3]) -> (block: [u8; 16])
    ensures
        block@ == padded(r@),
{
    let block: [u8; 16] = [r[0], r[1], r[2], 0, 0, 0, 0, 0, 0, 0, 0, 0, 0, 0, 0, 0];
    proof {
        assert(block@ =~= padded(r@));
    }
    block
}

/// The first three bytes of a block.
pub fn first_three(block: &[u8; 16]) -> (hash: [u8; 3])
    ensures
        hash@ == block@.take(3),
{
    let hash: [u8; 3] = [block[0], block[1], block[2]];
    proof {
        assert(hash@ =~= block@.take(3));
    }
    hash
}

/// The random address hash: the first three bytes of e on the padded random
/// part.
pub open spec fn address_hash(k: Seq<u8>, r: Seq<u8>) -> Seq<u8> {
    encrypted(k, padded(r)).take(3)
}

/// The random address hash: the first three bytes of e on the padded random
/// part.
pub fn ah(k: &[u8; 16], r: &[u8; 3]) -> (hash: [u8; 3])
    ensures
        hash@ == encrypted(k@, padded(r@)).take(3),
        hash@ == address_hash(k@, r@),
{
    first_three(&e(k, &pad(r)))
}

// Settings

/// The named themes of the stored settings.
#[derive(Debug, Clone, Copy, PartialEq, Eq, Structural)]
pub enum MyTheme {
    Light,
    Dark,
    Dracula,
    Nord,
    SolarizedLight,
    SolarizedDark,
    GruvboxLight,
    GruvboxDark,
    CatppuccinLatte,
    CatppuccinFrappe,
    CatppuccinMacchiato,
    CatppuccinMocha,
    TokyoNight,
    TokyoNightStorm,
    TokyoNightLight,
    KanagawaWave,
    KanagawaDragon,
    KanagawaLotus,
    Moonfly,
    Nightfly,
    Oxocarbon,
    Ferra,
}

impl MyTheme {
    /// The name of the variant, as it is stored.
    pub open spec fn variant(self) -> Seq<char> {
        match self {
            MyTheme::Light => "Light"@,
            MyTheme::Dark => "Dark"@,
            MyTheme::Dracula => "Dracula"@,
            MyTheme::Nord => "Nord"@,
            MyTheme::SolarizedLight => "SolarizedLight"@,
            MyTheme::SolarizedDark => "SolarizedDark"@,
            MyTheme::GruvboxLight => "GruvboxLight"@,
            MyTheme::GruvboxDark => "GruvboxDark"@,
            MyTheme::CatppuccinLatte => "CatppuccinLatte"@,
            MyTheme::CatppuccinFrappe => "CatppuccinFrappe"@,
            MyTheme::CatppuccinMacchiato => "CatppuccinMacchiato"@,
            MyTheme::CatppuccinMocha => "CatppuccinMocha"@,
            MyTheme::TokyoNight => "TokyoNight"@,
            MyTheme::TokyoNightStorm => "TokyoNightStorm"@,
            MyTheme::TokyoNightLight => "TokyoNightLight"@,
            MyTheme::KanagawaWave => "KanagawaWave"@,
            MyTheme::KanagawaDragon => "KanagawaDragon"@,
            MyTheme::KanagawaLotus => "KanagawaLotus"@,
            MyTheme::Moonfly => "Moonfly"@,
            MyTheme::Nightfly => "Nightfly"@,
            MyTheme::Oxocarbon => "Oxocarbon"@,
            MyTheme::Ferra => "Ferra"@,
        }
    }

    /// The name of the theme as shown.
    pub open spec fn shown(self) -> Seq<char> {
        match self {
            MyTheme::Light => "Light"@,
            MyTheme::Dark => "Dark"@,
            MyTheme::Dracula => "Dracula"@,
            MyTheme::Nord => "Nord"@,
            MyTheme::SolarizedLight => "Solarized Light"@,
            MyTheme::SolarizedDark => "Solarized Dark"@,
            MyTheme::GruvboxLight => "Gruvbox Light"@,
            MyTheme::GruvboxDark => "Gruvbox Dark"@,
            MyTheme::CatppuccinLatte => "Catppuccin Latte"@,
            MyTheme::CatppuccinFrappe => "Catppuccin Frappé"@,
            MyTheme::CatppuccinMacchiato => "Catppuccin Macchiato"@,
            MyTheme::CatppuccinMocha => "Catppuccin Mocha"@,
            MyTheme::TokyoNight => "Tokyo Night"@,
            MyTheme::TokyoNightStorm => "Tokyo Night Storm"@,
            MyTheme::TokyoNightLight => "Tokyo Night Light"@,
            MyTheme::KanagawaWave => "Kanagawa Wave"@,
            MyTheme::KanagawaDragon => "Kanagawa Dragon"@,
            MyTheme::KanagawaLotus => "Kanagawa Lotus"@,
            MyTheme::Moonfly => "Moonfly"@,
            MyTheme::Nightfly => "Nightfly"@,
            MyTheme::Oxocarbon => "Oxocarbon"@,
            MyTheme::Ferra => "Ferra"@,
        }
    }

    /// The name of the variant, as it is stored.
    pub fn name(self) -> (name: &'static str)
        ensures
            name@ == self.variant(),
    {
        match self {
            MyTheme::Light => "Light",
            MyTheme::Dark => "Dark",
            MyTheme::Dracula => "Dracula",
            MyTheme::Nord => "Nord",
            MyTheme::SolarizedLight => "SolarizedLight",
            MyTheme::SolarizedDark => "SolarizedDark",
            MyTheme::GruvboxLight => "GruvboxLight",
            MyTheme::GruvboxDark => "GruvboxDark",
            MyTheme::CatppuccinLatte => "CatppuccinLatte",
            MyTheme::CatppuccinFrappe => "CatppuccinFrappe",
            MyTheme::CatppuccinMacchiato => "CatppuccinMacchiato",
            MyTheme::CatppuccinMocha => "CatppuccinMocha",
            MyTheme::TokyoNight => "TokyoNight",
            MyTheme::TokyoNightStorm => "TokyoNightStorm",
            MyTheme::TokyoNightLight => "TokyoNightLight",
            MyTheme::KanagawaWave => "KanagawaWave",
            MyTheme::KanagawaDragon => "KanagawaDragon",
            MyTheme::KanagawaLotus => "KanagawaLotus",
            MyTheme::Moonfly => "Moonfly",
            MyTheme::Nightfly => "Nightfly",
            MyTheme::Oxocarbon => "Oxocarbon",
            MyTheme::Ferra => "Ferra",
        }
    }

    /// The name of the theme as shown.
    pub fn label(self) -> (label: &'static str)
        ensures
            label@ == self.shown(),
    {
        match self {
            MyTheme::Light => "Light",
            MyTheme::Dark => "Dark",
            MyTheme::Dracula => "Dracula",
            MyTheme::Nord => "Nord",
            MyTheme::SolarizedLight => "Solarized Light",
            MyTheme::SolarizedDark => "Solarized Dark",
            MyTheme::GruvboxLight => "Gruvbox Light",
            MyTheme::GruvboxDark => "Gruvbox Dark",
            MyTheme::CatppuccinLatte => "Catppuccin Latte",
            MyTheme::CatppuccinFrappe => "Catppuccin Frappé",
            MyTheme::CatppuccinMacchiato => "Catppuccin Macchiato",
            MyTheme::CatppuccinMocha => "Catppuccin Mocha",
            MyTheme::TokyoNight => "Tokyo Night",
            MyTheme::TokyoNightStorm => "Tokyo Night Storm",
            MyTheme::TokyoNightLight => "Tokyo Night Light",
            MyTheme::KanagawaWave => "Kanagawa Wave",
            MyTheme::KanagawaDragon => "Kanagawa Dragon",
            MyTheme::KanagawaLotus => "Kanagawa Lotus",
            MyTheme::Moonfly => "Moonfly",
            MyTheme::Nightfly => "Nightfly",
            MyTheme::Oxocarbon => "Oxocarbon",
            MyTheme::Ferra => "Ferra",
        }
    }
}

/// The settings of the program, as app_settings.json keeps them.
#[derive(Debug, Clone, Copy, PartialEq, Eq, Structural)]
pub struct AppSettings {
    pub theme: MyTheme,
    pub tray_text_mode: bool,
    pub stem_control: bool,
    pub hires_mic_enabled: bool,
    pub hires_mic_agc: bool,
    pub hires_mic_pause_convo: bool,
    pub a2dp_reset: bool,
    /// Connect the AirPods to this PC when local media starts playing, taking
    /// them from the phone like an Apple device does.
    pub auto_switch_on_playback: bool,
    /// A2DP codec activated for playback; the others are fallbacks.
    pub preferred_codec: PreferredCodec,
}

/// The settings before anything was stored.
pub open spec fn default_settings() -> AppSettings {
    AppSettings {
        theme: MyTheme::Dark,
        tray_text_mode: false,
        stem_control: false,
        hires_mic_enabled: true,
        hires_mic_agc: true,
        hires_mic_pause_convo: true,
        a2dp_reset: true,
        auto_switch_on_playback: true,
        preferred_codec: PreferredCodec::Aac,
    }
}

impl Default for AppSettings {
    fn default() -> (settings: AppSettings)
        ensures
            settings == default_settings(),
    {
        AppSettings {
            theme: MyTheme::Dark,
            tray_text_mode: false,
            stem_control: false,
            hires_mic_enabled: true,
            hires_mic_agc: true,
            hires_mic_pause_convo: true,
            a2dp_reset: true,
            auto_switch_on_playback: true,
            preferred_codec: PreferredCodec::default(),
        }
    }
}

impl AppSettings {
    /// The settings to run with: those read from the file, or the default
    /// ones where the file is missing or does not parse.
    pub fn load(stored: Option<AppSettings>) -> (settings: AppSettings)
        ensures
            settings == (match stored {
                Some(s) => s,
                None => default_settings(),
            }),
    {
        match stored {
            Some(s) => s,
            None => AppSettings::default(),
        }
    }
}

/// A path is extended by a slash and the component, without a second slash where
/// the path ends in one; an empty path gives the component alone.
pub proof fn paths_are_joined_by_one_slash(base: Seq<char>, component: Seq<char>)
    ensures
        ({
            let path = extended(base, component);
            let start = path.len() - component.len();
            &&& start >= 0
            &&& path.skip(start) == component
            &&& base.len() == 0 ==> start == 0
            &&& base.len() > 0 ==> path[start - 1] == '/' && path.take(base.len() as int) == base
            &&& base.len() > 0 && base.last() == '/' ==> start == base.len()
            &&& base.len() > 0 && base.last() != '/' ==> start == base.len() + 1
        }),
{
    reveal_strlit("/");
    let path = extended(base, component);
    let start = path.len() - component.len();
    assert(path.skip(start) =~= component);
    assert(base.len() > 0 ==> path.take(base.len() as int) =~= base);
}

/// The variable names the directory where it is set; else it lies below the home
/// directory, or at the root where that is not set either.
pub proof fn the_variable_comes_before_the_home_directory(
    dir: Seq<char>,
    home: Seq<char>,
    other: Option<Seq<char>>,
    below: Seq<char>,
)
    ensures
        directory(Some(dir), other, below) == dir,
        directory(None, Some(home), below) == home + below,
        directory(None, None, below) == below,
{
}

/// A new name changes the name of a known device and nothing else of it, and no
/// other device; an unknown device stays unknown.
pub proof fn renaming_changes_one_name(
    devices: Map<Seq<char>, DeviceDataView>,
    mac: Seq<char>,
    name: Seq<char>,
    other: Seq<char>,
)
    ensures
        ({
            let after = renamed(devices, mac, name);
            &&& after.dom() == devices.dom()
            &&& devices.contains_key(mac) ==> after[mac].name == name && after[mac].type_
                == devices[mac].type_ && after[mac].information == devices[mac].information
            &&& other != mac ==> after[other] == devices[other]
        }),
{
    assert(renamed(devices, mac, name).dom() =~= devices.dom());
}

/// A device that is registered has the name and the type it came with, and
/// nothing else is known of it.
pub proof fn a_new_device_has_its_name_and_type(
    devices: Map<Seq<char>, DeviceDataView>,
    mac: Seq<char>,
    name: Seq<char>,
    type_: DeviceType,
)
    requires
        !devices.contains_key(mac),
    ensures
        registered(devices, mac, name, type_)[mac].name == name,
        registered(devices, mac, name, type_)[mac].type_ == type_,
        registered(devices, mac, name, type_)[mac].information is None,
{
}

/// The card profiles of the codecs, and the order of the two that are not
/// chosen: AAC before SBC-XQ before SBC.
pub proof fn codecs_have_their_profiles(chosen: PreferredCodec)
    ensures
        PreferredCodec::Aac.profile() == "a2dp-sink"@,
        PreferredCodec::SbcXq.profile() == "a2dp-sink-sbc_xq"@,
        PreferredCodec::Sbc.profile() == "a2dp-sink-sbc"@,
        chosen.order()[0] == chosen,
        !(chosen is Aac) ==> chosen.order()[1] is Aac,
        !(chosen is Sbc) ==> chosen.order()[2] is Sbc,
        chosen is Aac ==> chosen.order()[1] is SbcXq,
        chosen is Sbc ==> chosen.order()[2] is SbcXq,
{
}

/// The hash of an address takes three bytes of what the cipher gives, with every
/// key, block and result in reverse order; the block is the random part and
/// zeros after it.
pub proof fn the_hash_reverses_all_bytes(key: Seq<u8>, data: Seq<u8>, r: Seq<u8>, block: Seq<u8>)
    requires
        r.len() == 3,
        block.len() == 16,
        block.take(3) == r,
        forall|i: int| 3 <= i < 16 ==> #[trigger] block[i] == 0,
    ensures
        encrypted(key.reverse(), data.reverse()).reverse() == aes128_block(key, data),
        padded(r) == block,
        address_hash(key, r) == encrypted(key, block).take(3),
{
    assert(key.reverse().reverse() =~= key);
    assert(data.reverse().reverse() =~= data);
    assert(aes128_block(key, data).reverse().reverse() =~= aes128_block(key, data));
    assert forall|i: int| 0 <= i < 16 implies padded(r)[i] == block[i] by {
        if i < 3 {
            assert(block.take(3)[i] == block[i]);
        }
    }
    assert(padded(r) =~= block);
}

/// What the settings are before anything was stored: dark, with the text mode of
/// the tray and the stem control off and everything else on.
pub proof fn the_program_starts_with_these_settings()
    ensures
        default_settings().theme is Dark,
        !default_settings().tray_text_mode,
        !default_settings().stem_control,
        default_settings().hires_mic_enabled,
        default_settings().hires_mic_agc,
        default_settings().hires_mic_pause_convo,
        default_settings().a2dp_reset,
        default_settings().auto_switch_on_playback,
        default_settings().preferred_codec is Aac,
{
}

} // verus!
