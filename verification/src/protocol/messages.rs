//! Messages of the handshake.

use vstd::prelude::*;

verus! {

/// An audio format that a player can decode.
#[derive(Debug, Clone, PartialEq, Eq)]
pub struct AudioFormatSpec {
    pub codec: String,
    pub channels: u8,
    pub sample_rate: u32,
    pub bit_depth: u8,
}

/// What an [`AudioFormatSpec`] says.
pub struct FormatSpec {
    pub codec: Seq<char>,
    pub channels: u8,
    pub sample_rate: u32,
    pub bit_depth: u8,
}

impl View for AudioFormatSpec {
    type V = FormatSpec;

    open spec fn view(&self) -> FormatSpec {
        FormatSpec {
            codec: self.codec@,
            channels: self.channels,
            sample_rate: self.sample_rate,
            bit_depth: self.bit_depth,
        }
    }
}

/// The contents of a list of strings.
pub open spec fn texts(strings: Seq<String>) -> Seq<Seq<char>> {
    strings.map_values(|s: String| s@)
}

/// The contents of a string that may be absent.
pub open spec fn text(string: Option<String>) -> Option<Seq<char>> {
    match string {
        Some(s) => Some(s@),
        None => None,
    }
}

/// What a player can do.
#[derive(Debug, Clone, PartialEq, Eq)]
pub struct PlayerV1Support {
    pub supported_formats: Vec<AudioFormatSpec>,
    /// Bytes of audio that the player can buffer.
    pub buffer_capacity: u32,
    pub supported_commands: Vec<String>,
}

/// What a [`PlayerV1Support`] says.
pub struct PlayerSupport {
    pub supported_formats: Seq<FormatSpec>,
    pub buffer_capacity: u32,
    pub supported_commands: Seq<Seq<char>>,
}

impl View for PlayerV1Support {
    type V = PlayerSupport;

    open spec fn view(&self) -> PlayerSupport {
        PlayerSupport {
            supported_formats: self.supported_formats@.map_values(|f: AudioFormatSpec| f@),
            buffer_capacity: self.buffer_capacity,
            supported_commands: texts(self.supported_commands@),
        }
    }
}

/// The player support that may be absent.
pub open spec fn player_support(support: Option<PlayerV1Support>) -> Option<PlayerSupport> {
    match support {
        Some(s) => Some(s@),
        None => None,
    }
}

/// What an artwork channel shows.
#[derive(Debug, Clone, Copy, PartialEq, Eq, Structural)]
pub enum ArtworkSource {
    Album,
    Artist,
    /// The channel shows nothing.
    Disabled,
}

/// Encoding of an artwork image.
#[derive(Debug, Clone, Copy, PartialEq, Eq, Structural)]
pub enum ImageFormat {
    Jpeg,
    Png,
    Bmp,
}

/// One stream of artwork images.
#[derive(Debug, Clone, Copy, PartialEq, Eq, Structural)]
pub struct ArtworkChannel {
    pub source: ArtworkSource,
    pub format: ImageFormat,
    pub media_width: u32,
    pub media_height: u32,
}

/// What an artwork display can do.
#[derive(Debug, Clone, PartialEq, Eq)]
pub struct ArtworkV1Support {
    pub channels: Vec<ArtworkChannel>,
}

/// What a visualizer can do.
#[derive(Debug, Clone, PartialEq, Eq)]
pub struct VisualizerV1Support {}

/// What a metadata display can do.
#[derive(Debug, Clone, PartialEq, Eq)]
pub struct MetadataV1Support {}

/// The device that a client runs on.
#[derive(Debug, Clone, PartialEq, Eq)]
pub struct DeviceInfo {
    pub product_name: Option<String>,
    pub manufacturer: Option<String>,
    pub software_version: Option<String>,
}

/// The first message of a client: who it is and what it can do.
#[derive(Debug, Clone, PartialEq, Eq)]
pub struct ClientHello {
    pub client_id: String,
    pub name: String,
    pub version: u32,
    pub supported_roles: Vec<String>,
    pub device_info: Option<DeviceInfo>,
    pub player_v1_support: Option<PlayerV1Support>,
    pub artwork_v1_support: Option<ArtworkV1Support>,
    pub visualizer_v1_support: Option<VisualizerV1Support>,
    pub metadata_v1_support: Option<MetadataV1Support>,
}

/// What a [`DeviceInfo`] says.
pub struct Device {
    pub product_name: Option<Seq<char>>,
    pub manufacturer: Option<Seq<char>>,
    pub software_version: Option<Seq<char>>,
}

impl View for DeviceInfo {
    type V = Device;

    open spec fn view(&self) -> Device {
        Device {
            product_name: text(self.product_name),
            manufacturer: text(self.manufacturer),
            software_version: text(self.software_version),
        }
    }
}

/// What a [`ClientHello`] says.
pub struct Hello {
    pub client_id: Seq<char>,
    pub name: Seq<char>,
    pub version: u32,
    pub supported_roles: Seq<Seq<char>>,
    pub device_info: Option<Device>,
    pub player_v1_support: Option<PlayerSupport>,
    pub artwork_v1_support: Option<ArtworkV1Support>,
    pub visualizer_v1_support: Option<VisualizerV1Support>,
    pub metadata_v1_support: Option<MetadataV1Support>,
}

impl View for ClientHello {
    type V = Hello;

    open spec fn view(&self) -> Hello {
        Hello {
            client_id: self.client_id@,
            name: self.name@,
            version: self.version,
            supported_roles: texts(self.supported_roles@),
            device_info: match self.device_info {
                Some(device) => Some(device@),
                None => None,
            },
            player_v1_support: player_support(self.player_v1_support),
            artwork_v1_support: self.artwork_v1_support,
            visualizer_v1_support: self.visualizer_v1_support,
            metadata_v1_support: self.metadata_v1_support,
        }
    }
}

/// What a message says is what its fields hold: each string, each list entry by
/// entry, and what is absent is absent.
pub proof fn law_messages_say_what_they_hold(
    strings: Seq<String>,
    string: Option<String>,
    format: AudioFormatSpec,
    player: PlayerV1Support,
    hello: ClientHello,
)
    ensures
        texts(strings).len() == strings.len(),
        forall|i: int| 0 <= i < strings.len() ==> #[trigger] texts(strings)[i] == strings[i]@,
        text(string) is Some <==> string is Some,
        string is Some ==> text(string)->0 == string->0@,
        format@.codec == format.codec@,
        format@.channels == format.channels,
        format@.sample_rate == format.sample_rate,
        format@.bit_depth == format.bit_depth,
        player@.buffer_capacity == player.buffer_capacity,
        player@.supported_formats.len() == player.supported_formats@.len(),
        forall|i: int|
            0 <= i < player.supported_formats@.len() ==> #[trigger] player@.supported_formats[i]
                == player.supported_formats@[i]@,
        player@.supported_commands == texts(player.supported_commands@),
        player_support(Some(player)) == Some(player@),
        player_support(None) is None,
        hello@.client_id == hello.client_id@,
        hello@.name == hello.name@,
        hello@.version == hello.version,
        hello@.supported_roles == texts(hello.supported_roles@),
        hello@.player_v1_support == player_support(hello.player_v1_support),
        hello@.artwork_v1_support == hello.artwork_v1_support,
        hello@.visualizer_v1_support == hello.visualizer_v1_support,
        hello@.metadata_v1_support == hello.metadata_v1_support,
        hello@.device_info is Some <==> hello.device_info is Some,
        hello.device_info matches Some(device) ==> {
            &&& hello@.device_info->0.product_name == text(device.product_name)
            &&& hello@.device_info->0.manufacturer == text(device.manufacturer)
            &&& hello@.device_info->0.software_version == text(device.software_version)
        },
{
}

} // verus!
