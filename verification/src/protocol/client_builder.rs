//! Builder exposed for public usage of the library.
//!
//! A client is configured field by field and then fixed as a
//! [`ProtocolClientBuilder`], which knows the roles it will announce:
//!
//! ```text
//! ProtocolClientBuilder::builder().client_id(id).name(name).build()
//! ```

use crate::protocol::messages::{
    ArtworkV1Support, AudioFormatSpec, ClientHello, Device, DeviceInfo, FormatSpec, Hello,
    MetadataV1Support, PlayerSupport, PlayerV1Support, VisualizerV1Support,
};
use vstd::prelude::*;

verus! {

/// Version of the protocol that the client speaks.
pub const PROTOCOL_VERSION: u32 = 1;

/// What a client may be configured with, beside who it is.
pub struct ClientOptions {
    pub product_name: Option<Seq<char>>,
    pub manufacturer: Option<Seq<char>>,
    pub software_version: Option<Seq<char>>,
    pub player_v1_support: Option<PlayerSupport>,
    pub artwork_v1_support: Option<ArtworkV1Support>,
    pub visualizer_v1_support: Option<VisualizerV1Support>,
    pub metadata_v1_support: Option<MetadataV1Support>,
    pub controller_v1: bool,
}

/// What a client was configured with.
pub struct ClientConfig {
    pub client_id: Seq<char>,
    pub name: Seq<char>,
    pub options: ClientOptions,
}

/// What a [`ProtocolClientBuilder`] holds.
pub struct BuilderState {
    pub client_id: Seq<char>,
    pub name: Seq<char>,
    pub product_name: Option<Seq<char>>,
    pub manufacturer: Option<Seq<char>>,
    pub software_version: Option<Seq<char>>,
    pub supported_roles: Seq<Seq<char>>,
    pub player_v1_support: Option<PlayerSupport>,
    pub artwork_v1_support: Option<ArtworkV1Support>,
    pub visualizer_v1_support: Option<VisualizerV1Support>,
    pub metadata_v1_support: Option<MetadataV1Support>,
}

/// The support announced by a client that did not configure its player: stereo
/// PCM at 48 kHz in 24 and 16 bits, 50 MiB of buffer, volume and mute.
pub open spec fn default_player_support() -> PlayerSupport {
    PlayerSupport {
        supported_formats: seq![
            FormatSpec { codec: "pcm"@, channels: 2, sample_rate: 48_000, bit_depth: 24 },
            FormatSpec { codec: "pcm"@, channels: 2, sample_rate: 48_000, bit_depth: 16 },
        ],
        buffer_capacity: 52_428_800,
        supported_commands: seq!["volume"@, "mute"@],
    }
}

/// `role` if it is `present`, as a list.
pub open spec fn role_if(present: bool, role: Seq<char>) -> Seq<Seq<char>> {
    if present {
        seq![role]
    } else {
        Seq::empty()
    }
}

impl ClientOptions {
    /// Nothing configured.
    pub open spec fn unset() -> ClientOptions {
        ClientOptions {
            product_name: None,
            manufacturer: None,
            software_version: None,
            player_v1_support: None,
            artwork_v1_support: None,
            visualizer_v1_support: None,
            metadata_v1_support: None,
            controller_v1: false,
        }
    }

    /// The roles that the client announces, in order. It is always a player.
    pub open spec fn roles(self) -> Seq<Seq<char>> {
        seq!["player@v1"@] + role_if(self.artwork_v1_support is Some, "artwork@v1"@) + role_if(
            self.visualizer_v1_support is Some,
            "visualizer@v1"@,
        ) + role_if(self.metadata_v1_support is Some, "metadata@v1"@) + role_if(
            self.controller_v1,
            "controller@v1"@,
        )
    }

    /// The player support that the client announces.
    pub open spec fn player(self) -> PlayerSupport {
        match self.player_v1_support {
            Some(support) => support,
            None => default_player_support(),
        }
    }
}

impl ClientConfig {
    /// The builder that this configuration makes.
    pub open spec fn finished(self) -> BuilderState {
        BuilderState {
            client_id: self.client_id,
            name: self.name,
            product_name: self.options.product_name,
            manufacturer: self.options.manufacturer,
            software_version: self.options.software_version,
            supported_roles: self.options.roles(),
            player_v1_support: Some(self.options.player()),
            artwork_v1_support: self.options.artwork_v1_support,
            visualizer_v1_support: self.options.visualizer_v1_support,
            metadata_v1_support: self.options.metadata_v1_support,
        }
    }
}

impl BuilderState {
    /// The message with which the client introduces itself.
    pub open spec fn hello(self) -> Hello {
        Hello {
            client_id: self.client_id,
            name: self.name,
            version: PROTOCOL_VERSION,
            supported_roles: self.supported_roles,
            device_info: Some(
                Device {
                    product_name: self.product_name,
                    manufacturer: match self.manufacturer {
                        Some(manufacturer) => Some(manufacturer),
                        None => Some("Sendspin"@),
                    },
                    software_version: self.software_version,
                },
            ),
            player_v1_support: self.player_v1_support,
            artwork_v1_support: self.artwork_v1_support,
            visualizer_v1_support: self.visualizer_v1_support,
            metadata_v1_support: self.metadata_v1_support,
        }
    }
}

/// Appends `entry` to a list of strings.
fn push_text(list: &mut Vec<String>, entry: &str)
    ensures
        crate::protocol::messages::texts(final(list)@) == crate::protocol::messages::texts(
            old(list)@,
        ).push(entry@),
{
    list.push(entry.to_owned());
    assert(crate::protocol::messages::texts(list@) =~= crate::protocol::messages::texts(
        old(list)@,
    ).push(entry@));
}

/// The player support announced by default.
fn make_default_player_support() -> (r: PlayerV1Support)
    ensures
        r@ == default_player_support(),
{
    let mut supported_formats: Vec<AudioFormatSpec> = Vec::new();
    supported_formats.push(
        AudioFormatSpec {
            codec: "pcm".to_owned(),
            channels: 2,
            sample_rate: 48_000,
            bit_depth: 24,
        },
    );
    supported_formats.push(
        AudioFormatSpec {
            codec: "pcm".to_owned(),
            channels: 2,
            sample_rate: 48_000,
            bit_depth: 16,
        },
    );
    let mut supported_commands: Vec<String> = Vec::new();
    push_text(&mut supported_commands, "volume");
    push_text(&mut supported_commands, "mute");
    let r = PlayerV1Support {
        supported_formats,
        buffer_capacity: 50 * 1024 * 1024,
        supported_commands,
    };
    assert(r@.supported_formats =~= default_player_support().supported_formats);
    assert(r@.supported_commands =~= default_player_support().supported_commands);
    r
}

/// Intermediate builder struct before finalization
#[derive(Clone)]
pub struct ProtocolClientBuilderRaw {
    client_id: String,
    name: String,
    product_name: Option<String>,
    manufacturer: Option<String>,
    software_version: Option<String>,
    player_v1_support: Option<PlayerV1Support>,
    artwork_v1_support: Option<ArtworkV1Support>,
    visualizer_v1_support: Option<VisualizerV1Support>,
    metadata_v1_support: Option<MetadataV1Support>,
    controller_v1: bool,
}

impl View for ProtocolClientBuilderRaw {
    type V = ClientConfig;

    closed spec fn view(&self) -> ClientConfig {
        ClientConfig {
            client_id: self.client_id@,
            name: self.name@,
            options: ClientOptions {
                product_name: crate::protocol::messages::text(self.product_name),
                manufacturer: crate::protocol::messages::text(self.manufacturer),
                software_version: crate::protocol::messages::text(self.software_version),
                player_v1_support: crate::protocol::messages::player_support(
                    self.player_v1_support,
                ),
                artwork_v1_support: self.artwork_v1_support,
                visualizer_v1_support: self.visualizer_v1_support,
                metadata_v1_support: self.metadata_v1_support,
                controller_v1: self.controller_v1,
            },
        }
    }
}

impl From<ProtocolClientBuilderRaw> for ProtocolClientBuilder {
    fn from(raw: ProtocolClientBuilderRaw) -> (r: Self)
        ensures
            r@ == raw@.finished(),
    {
        // Default player support if not explicitly set
        let player_v1_support: PlayerV1Support = match raw.player_v1_support {
            Some(support) => support,
            None => make_default_player_support(),
        };

        // Player role is always present (since we set a default)
        let mut supported_roles: Vec<String> = Vec::new();
        push_text(&mut supported_roles, "player@v1");
        if raw.artwork_v1_support.is_some() {
            push_text(&mut supported_roles, "artwork@v1");
        }
        if raw.visualizer_v1_support.is_some() {
            push_text(&mut supported_roles, "visualizer@v1");
        }
        if raw.metadata_v1_support.is_some() {
            push_text(&mut supported_roles, "metadata@v1");
        }
        if raw.controller_v1 {
            push_text(&mut supported_roles, "controller@v1");
        }
        assert(crate::protocol::messages::texts(supported_roles@) =~= raw@.options.roles());

        ProtocolClientBuilder {
            client_id: raw.client_id,
            name: raw.name,
            product_name: raw.product_name,
            manufacturer: raw.manufacturer,
            software_version: raw.software_version,
            supported_roles,
            player_v1_support: Some(player_v1_support),
            artwork_v1_support: raw.artwork_v1_support,
            visualizer_v1_support: raw.visualizer_v1_support,
            metadata_v1_support: raw.metadata_v1_support,
        }
    }
}

impl vstd::std_specs::convert::FromSpecImpl<ProtocolClientBuilderRaw> for ProtocolClientBuilder {
    open spec fn obeys_from_spec() -> bool {
        false
    }

    open spec fn from_spec(raw: ProtocolClientBuilderRaw) -> Self {
        choose|r: Self| r@ == raw@.finished()
    }
}

/// Builder Class for ProtocolClient
#[derive(Clone)]
pub struct ProtocolClientBuilderFields {
    client_id: String,
    name: String,
    product_name: Option<String>,
    manufacturer: Option<String>,
    software_version: Option<String>,
    player_v1_support: Option<PlayerV1Support>,
    artwork_v1_support: Option<ArtworkV1Support>,
    visualizer_v1_support: Option<VisualizerV1Support>,
    metadata_v1_support: Option<MetadataV1Support>,
    controller_v1: bool,
}

impl View for ProtocolClientBuilderFields {
    type V = ClientConfig;

    closed spec fn view(&self) -> ClientConfig {
        ClientConfig {
            client_id: self.client_id@,
            name: self.name@,
            options: ClientOptions {
                product_name: crate::protocol::messages::text(self.product_name),
                manufacturer: crate::protocol::messages::text(self.manufacturer),
                software_version: crate::protocol::messages::text(self.software_version),
                player_v1_support: crate::protocol::messages::player_support(
                    self.player_v1_support,
                ),
                artwork_v1_support: self.artwork_v1_support,
                visualizer_v1_support: self.visualizer_v1_support,
                metadata_v1_support: self.metadata_v1_support,
                controller_v1: self.controller_v1,
            },
        }
    }
}

impl ProtocolClientBuilderFields {
    /// Nothing set yet
    pub fn builder() -> (r: ProtocolClientBuilderFieldsBuilder<(), ()>)
        ensures
            r.options() == ClientOptions::unset(),
    {
        ProtocolClientBuilderFieldsBuilder {
            client_id: (),
            name: (),
            product_name: None,
            manufacturer: None,
            software_version: None,
            player_v1_support: None,
            artwork_v1_support: None,
            visualizer_v1_support: None,
            metadata_v1_support: None,
            controller_v1: false,
        }
    }
}

impl From<ProtocolClientBuilderFields> for ProtocolClientBuilder {
    fn from(fields: ProtocolClientBuilderFields) -> (r: Self)
        ensures
            r@ == fields@.finished(),
    {
        let raw = ProtocolClientBuilderRaw {
            client_id: fields.client_id,
            name: fields.name,
            product_name: fields.product_name,
            manufacturer: fields.manufacturer,
            software_version: fields.software_version,
            player_v1_support: fields.player_v1_support,
            artwork_v1_support: fields.artwork_v1_support,
            visualizer_v1_support: fields.visualizer_v1_support,
            metadata_v1_support: fields.metadata_v1_support,
            controller_v1: fields.controller_v1,
        };
        ProtocolClientBuilder::from(raw)
    }
}

impl vstd::std_specs::convert::FromSpecImpl<ProtocolClientBuilderFields> for ProtocolClientBuilder {
    open spec fn obeys_from_spec() -> bool {
        false
    }

    open spec fn from_spec(fields: ProtocolClientBuilderFields) -> Self {
        choose|r: Self| r@ == fields@.finished()
    }
}

/// The fields of a client as they are being set. `C` and `N` are `(String,)`
/// once the client id and the name are there, and `()` before: only then does
/// it build.
pub struct ProtocolClientBuilderFieldsBuilder<C, N> {
    client_id: C,
    name: N,
    product_name: Option<String>,
    manufacturer: Option<String>,
    software_version: Option<String>,
    player_v1_support: Option<PlayerV1Support>,
    artwork_v1_support: Option<ArtworkV1Support>,
    visualizer_v1_support: Option<VisualizerV1Support>,
    metadata_v1_support: Option<MetadataV1Support>,
    controller_v1: bool,
}

impl<C, N> ProtocolClientBuilderFieldsBuilder<C, N> {
    /// The client id, if it was set.
    pub closed spec fn id_slot(self) -> C {
        self.client_id
    }

    /// The name, if it was set.
    pub closed spec fn name_slot(self) -> N {
        self.name
    }

    /// What else was set.
    pub closed spec fn options(self) -> ClientOptions {
        ClientOptions {
            product_name: crate::protocol::messages::text(self.product_name),
            manufacturer: crate::protocol::messages::text(self.manufacturer),
            software_version: crate::protocol::messages::text(self.software_version),
            player_v1_support: crate::protocol::messages::player_support(self.player_v1_support),
            artwork_v1_support: self.artwork_v1_support,
            visualizer_v1_support: self.visualizer_v1_support,
            metadata_v1_support: self.metadata_v1_support,
            controller_v1: self.controller_v1,
        }
    }

    /// Name of the product, in the device info
    pub fn product_name(self, product_name: Option<String>) -> (r: Self)
        ensures
            r.id_slot() == self.id_slot(),
            r.name_slot() == self.name_slot(),
            r.options() == (ClientOptions {
                product_name: crate::protocol::messages::text(product_name),
                ..self.options()
            }),
    {
        ProtocolClientBuilderFieldsBuilder { product_name, ..self }
    }

    /// Manufacturer, in the device info
    pub fn manufacturer(self, manufacturer: Option<String>) -> (r: Self)
        ensures
            r.id_slot() == self.id_slot(),
            r.name_slot() == self.name_slot(),
            r.options() == (ClientOptions {
                manufacturer: crate::protocol::messages::text(manufacturer),
                ..self.options()
            }),
    {
        ProtocolClientBuilderFieldsBuilder { manufacturer, ..self }
    }

    /// Version of the software, in the device info
    pub fn software_version(self, software_version: Option<String>) -> (r: Self)
        ensures
            r.id_slot() == self.id_slot(),
            r.name_slot() == self.name_slot(),
            r.options() == (ClientOptions {
                software_version: crate::protocol::messages::text(software_version),
                ..self.options()
            }),
    {
        ProtocolClientBuilderFieldsBuilder { software_version, ..self }
    }

    /// What the player can do
    pub fn player_v1_support(self, player_v1_support: PlayerV1Support) -> (r: Self)
        ensures
            r.id_slot() == self.id_slot(),
            r.name_slot() == self.name_slot(),
            r.options() == (ClientOptions {
                player_v1_support: Some(player_v1_support@),
                ..self.options()
            }),
    {
        ProtocolClientBuilderFieldsBuilder { player_v1_support: Some(player_v1_support), ..self }
    }

    /// What the artwork display can do
    pub fn artwork_v1_support(self, artwork_v1_support: ArtworkV1Support) -> (r: Self)
        ensures
            r.id_slot() == self.id_slot(),
            r.name_slot() == self.name_slot(),
            r.options() == (ClientOptions {
                artwork_v1_support: Some(artwork_v1_support),
                ..self.options()
            }),
    {
        ProtocolClientBuilderFieldsBuilder { artwork_v1_support: Some(artwork_v1_support), ..self }
    }

    /// What the visualizer can do
    pub fn visualizer_v1_support(self, visualizer_v1_support: VisualizerV1Support) -> (r: Self)
        ensures
            r.id_slot() == self.id_slot(),
            r.name_slot() == self.name_slot(),
            r.options() == (ClientOptions {
                visualizer_v1_support: Some(visualizer_v1_support),
                ..self.options()
            }),
    {
        ProtocolClientBuilderFieldsBuilder {
            visualizer_v1_support: Some(visualizer_v1_support),
            ..self
        }
    }

    /// What the metadata display can do
    pub fn metadata_v1_support(self, metadata_v1_support: MetadataV1Support) -> (r: Self)
        ensures
            r.id_slot() == self.id_slot(),
            r.name_slot() == self.name_slot(),
            r.options() == (ClientOptions {
                metadata_v1_support: Some(metadata_v1_support),
                ..self.options()
            }),
    {
        ProtocolClientBuilderFieldsBuilder {
            metadata_v1_support: Some(metadata_v1_support),
            ..self
        }
    }

    /// Whether the client is a controller too
    pub fn controller_v1(self, controller_v1: bool) -> (r: Self)
        ensures
            r.id_slot() == self.id_slot(),
            r.name_slot() == self.name_slot(),
            r.options() == (ClientOptions { controller_v1, ..self.options() }),
    {
        ProtocolClientBuilderFieldsBuilder { controller_v1, ..self }
    }
}

impl<N> ProtocolClientBuilderFieldsBuilder<(), N> {
    /// Unique id of the client
    pub fn client_id(self, client_id: String) -> (r: ProtocolClientBuilderFieldsBuilder<
        (String,),
        N,
    >)
        ensures
            r.id_slot() == (client_id,),
            r.name_slot() == self.name_slot(),
            r.options() == self.options(),
    {
        ProtocolClientBuilderFieldsBuilder {
            client_id: (client_id,),
            name: self.name,
            product_name: self.product_name,
            manufacturer: self.manufacturer,
            software_version: self.software_version,
            player_v1_support: self.player_v1_support,
            artwork_v1_support: self.artwork_v1_support,
            visualizer_v1_support: self.visualizer_v1_support,
            metadata_v1_support: self.metadata_v1_support,
            controller_v1: self.controller_v1,
        }
    }
}

impl<C> ProtocolClientBuilderFieldsBuilder<C, ()> {
    /// Name of the client for people
    pub fn name(self, name: String) -> (r: ProtocolClientBuilderFieldsBuilder<C, (String,)>)
        ensures
            r.id_slot() == self.id_slot(),
            r.name_slot() == (name,),
            r.options() == self.options(),
    {
        ProtocolClientBuilderFieldsBuilder {
            client_id: self.client_id,
            name: (name,),
            product_name: self.product_name,
            manufacturer: self.manufacturer,
            software_version: self.software_version,
            player_v1_support: self.player_v1_support,
            artwork_v1_support: self.artwork_v1_support,
            visualizer_v1_support: self.visualizer_v1_support,
            metadata_v1_support: self.metadata_v1_support,
            controller_v1: self.controller_v1,
        }
    }
}

impl ProtocolClientBuilderFieldsBuilder<(String,), (String,)> {
    /// The finished builder
    pub fn build(self) -> (r: ProtocolClientBuilder)
        ensures
            r@ == (ClientConfig {
                client_id: self.id_slot().0@,
                name: self.name_slot().0@,
                options: self.options(),
            }).finished(),
    {
        let fields = ProtocolClientBuilderFields {
            client_id: self.client_id.0,
            name: self.name.0,
            product_name: self.product_name,
            manufacturer: self.manufacturer,
            software_version: self.software_version,
            player_v1_support: self.player_v1_support,
            artwork_v1_support: self.artwork_v1_support,
            visualizer_v1_support: self.visualizer_v1_support,
            metadata_v1_support: self.metadata_v1_support,
            controller_v1: self.controller_v1,
        };
        ProtocolClientBuilder::from(fields)
    }
}

/// Builder Class for ProtocolClient
#[derive(Clone)]
pub struct ProtocolClientBuilder {
    client_id: String,
    name: String,
    product_name: Option<String>,
    manufacturer: Option<String>,
    software_version: Option<String>,
    supported_roles: Vec<String>,
    player_v1_support: Option<PlayerV1Support>,
    artwork_v1_support: Option<ArtworkV1Support>,
    visualizer_v1_support: Option<VisualizerV1Support>,
    metadata_v1_support: Option<MetadataV1Support>,
}

impl View for ProtocolClientBuilder {
    type V = BuilderState;

    closed spec fn view(&self) -> BuilderState {
        BuilderState {
            client_id: self.client_id@,
            name: self.name@,
            product_name: crate::protocol::messages::text(self.product_name),
            manufacturer: crate::protocol::messages::text(self.manufacturer),
            software_version: crate::protocol::messages::text(self.software_version),
            supported_roles: crate::protocol::messages::texts(self.supported_roles@),
            player_v1_support: crate::protocol::messages::player_support(self.player_v1_support),
            artwork_v1_support: self.artwork_v1_support,
            visualizer_v1_support: self.visualizer_v1_support,
            metadata_v1_support: self.metadata_v1_support,
        }
    }
}

impl ProtocolClientBuilder {
    /// Create a new builder
    pub fn builder() -> (r: ProtocolClientBuilderFieldsBuilder<(), ()>)
        ensures
            r.options() == ClientOptions::unset(),
    {
        ProtocolClientBuilderFields::builder()
    }

    /// Get the supported roles that will be sent in the client hello
    pub fn supported_roles(&self) -> (r: &[String])
        ensures
            crate::protocol::messages::texts(r@) == self@.supported_roles,
    {
        self.supported_roles.as_slice()
    }

    /// Get the player v1 support configuration
    pub fn player_v1_support(&self) -> (r: Option<&PlayerV1Support>)
        ensures
            self@.player_v1_support == (match r {
                Some(support) => Some(support@),
                None => None,
            }),
    {
        self.player_v1_support.as_ref()
    }

    /// Get the metadata v1 support configuration
    pub fn metadata_v1_support(&self) -> (r: Option<&MetadataV1Support>)
        ensures
            self@.metadata_v1_support == (match r {
                Some(support) => Some(*support),
                None => None,
            }),
    {
        self.metadata_v1_support.as_ref()
    }

    /// The message with which the client introduces itself to a server
    pub fn into_hello(self) -> (r: ClientHello)
        ensures
            r@ == self@.hello(),
    {
        let manufacturer: String = match self.manufacturer {
            Some(manufacturer) => manufacturer,
            None => "Sendspin".to_owned(),
        };
        ClientHello {
            client_id: self.client_id,
            name: self.name,
            version: PROTOCOL_VERSION,
            supported_roles: self.supported_roles,
            device_info: Some(
                DeviceInfo {
                    product_name: self.product_name,
                    manufacturer: Some(manufacturer),
                    software_version: self.software_version,
                },
            ),
            player_v1_support: self.player_v1_support,
            artwork_v1_support: self.artwork_v1_support,
            visualizer_v1_support: self.visualizer_v1_support,
            metadata_v1_support: self.metadata_v1_support,
        }
    }
}

/// Every client introduces itself as a player first, with a player support:
/// the configured one, or else the default.
pub proof fn law_every_client_is_a_player(config: ClientConfig)
    ensures
        config.finished().hello().supported_roles[0] == "player@v1"@,
        config.finished().hello().player_v1_support == Some(config.options.player()),
        config.options.player_v1_support is None ==> config.options.player()
            == default_player_support(),
        config.options.player_v1_support is Some ==> config.options.player()
            == config.options.player_v1_support->0,
{
}

/// What a client introduces itself with is what it was configured with, each field
/// in its place. Only the manufacturer has a default, and the protocol version is 1.
pub proof fn law_hello_carries_the_configuration(config: ClientConfig)
    ensures
        ({
            let hello = config.finished().hello();
            &&& hello.client_id == config.client_id
            &&& hello.name == config.name
            &&& hello.version == 1
            &&& hello.artwork_v1_support == config.options.artwork_v1_support
            &&& hello.visualizer_v1_support == config.options.visualizer_v1_support
            &&& hello.metadata_v1_support == config.options.metadata_v1_support
            &&& hello.device_info matches Some(device) && {
                &&& device.product_name == config.options.product_name
                &&& device.software_version == config.options.software_version
                &&& config.options.manufacturer is Some ==> device.manufacturer
                    == config.options.manufacturer
                &&& config.options.manufacturer is None ==> device.manufacturer == Some(
                    "Sendspin"@,
                )
            }
        }),
{
}

/// What a finished builder answers is what its hello message says.
pub proof fn law_builder_agrees_with_its_hello(state: BuilderState)
    ensures
        state.hello().supported_roles == state.supported_roles,
        state.hello().player_v1_support == state.player_v1_support,
        state.hello().metadata_v1_support == state.metadata_v1_support,
{
}

/// The default player support: two formats, stereo PCM at 48 kHz in 24 bits and in
/// 16 bits, 50 MiB of buffer, and the commands volume and mute.
pub proof fn law_default_player_by_numbers()
    ensures
        ({
            let player = default_player_support();
            let formats = player.supported_formats;
            &&& formats.len() == 2
            &&& formats[0].codec == "pcm"@ && formats[1].codec == "pcm"@
            &&& formats[0].channels == 2 && formats[1].channels == 2
            &&& formats[0].sample_rate == 48_000 && formats[1].sample_rate == 48_000
            &&& formats[0].bit_depth == 24 && formats[1].bit_depth == 16
            &&& player.buffer_capacity == 50 * 1_048_576
            &&& player.supported_commands.len() == 2
            &&& player.supported_commands[0] == "volume"@
            &&& player.supported_commands[1] == "mute"@
        }),
{
}

/// Roles come in a fixed order, each once: player, artwork, visualizer, metadata,
/// controller.
pub proof fn law_roles_come_in_order(config: ClientConfig)
    ensures
        ({
            let roles = config.finished().supported_roles;
            let artwork: int = if config.options.artwork_v1_support is Some {
                1
            } else {
                0
            };
            let visualizer: int = if config.options.visualizer_v1_support is Some {
                1
            } else {
                0
            };
            let metadata: int = if config.options.metadata_v1_support is Some {
                1
            } else {
                0
            };
            let controller: int = if config.options.controller_v1 {
                1
            } else {
                0
            };
            &&& roles.len() == 1 + artwork + visualizer + metadata + controller
            &&& roles[0] == "player@v1"@
            &&& artwork == 1 ==> roles[1] == "artwork@v1"@
            &&& visualizer == 1 ==> roles[1 + artwork] == "visualizer@v1"@
            &&& metadata == 1 ==> roles[1 + artwork + visualizer] == "metadata@v1"@
            &&& controller == 1 ==> roles[1 + artwork + visualizer + metadata] == "controller@v1"@
        }),
{
}

/// A client announces a role if, and only if, it was configured for it.
pub proof fn law_roles_follow_the_configuration(config: ClientConfig)
    ensures
        ({
            let roles = config.finished().hello().supported_roles;
            &&& roles.contains("artwork@v1"@) <==> config.options.artwork_v1_support is Some
            &&& roles.contains("visualizer@v1"@) <==> config.options.visualizer_v1_support is Some
            &&& roles.contains("metadata@v1"@) <==> config.options.metadata_v1_support is Some
            &&& roles.contains("controller@v1"@) <==> config.options.controller_v1
        }),
{
    reveal_strlit("player@v1");
    reveal_strlit("artwork@v1");
    reveal_strlit("visualizer@v1");
    reveal_strlit("metadata@v1");
    reveal_strlit("controller@v1");
    let options = config.options;
    let roles = options.roles();
    let artwork = role_if(options.artwork_v1_support is Some, "artwork@v1"@);
    let visualizer = role_if(options.visualizer_v1_support is Some, "visualizer@v1"@);
    let metadata = role_if(options.metadata_v1_support is Some, "metadata@v1"@);
    let before_visualizer = 1 + artwork.len() as int;
    let before_metadata = before_visualizer + visualizer.len();
    let before_controller = before_metadata + metadata.len();
    assert("player@v1"@[0] == 'p');
    assert("artwork@v1"@[0] == 'a');
    assert("visualizer@v1"@[0] == 'v');
    assert("metadata@v1"@[0] == 'm');
    assert("controller@v1"@[0] == 'c');
    if options.artwork_v1_support is Some {
        assert(roles[1] == "artwork@v1"@);
    }
    if options.visualizer_v1_support is Some {
        assert(roles[before_visualizer] == "visualizer@v1"@);
    }
    if options.metadata_v1_support is Some {
        assert(roles[before_metadata] == "metadata@v1"@);
    }
    if options.controller_v1 {
        assert(roles[before_controller] == "controller@v1"@);
    }
}

} // verus!
