//! The client builder and the message it introduces itself with.

use sendspin::protocol::messages::{
    ArtworkChannel, ArtworkSource, ArtworkV1Support, AudioFormatSpec, ImageFormat,
    MetadataV1Support, PlayerV1Support, VisualizerV1Support,
};
use sendspin::protocol::ProtocolClientBuilder;

fn pcm(bit_depth: u8) -> AudioFormatSpec {
    AudioFormatSpec {
        codec: "pcm".to_string(),
        channels: 2,
        sample_rate: 48_000,
        bit_depth,
    }
}

fn default_player() -> PlayerV1Support {
    PlayerV1Support {
        supported_formats: vec![pcm(24), pcm(16)],
        buffer_capacity: 50 * 1024 * 1024,
        supported_commands: vec!["volume".to_string(), "mute".to_string()],
    }
}

fn artwork() -> ArtworkV1Support {
    ArtworkV1Support {
        channels: vec![ArtworkChannel {
            source: ArtworkSource::Album,
            format: ImageFormat::Jpeg,
            media_width: 800,
            media_height: 800,
        }],
    }
}

#[test]
fn a_bare_client_is_a_player() {
    let client = ProtocolClientBuilder::builder()
        .client_id("id".to_string())
        .name("name".to_string())
        .build();
    assert_eq!(client.supported_roles(), ["player@v1"]);
    assert_eq!(client.player_v1_support(), Some(&default_player()));
    assert_eq!(client.metadata_v1_support(), None);
}

#[test]
fn roles_follow_the_configured_support() {
    let client = ProtocolClientBuilder::builder()
        .controller_v1(true)
        .metadata_v1_support(MetadataV1Support {})
        .name("name".to_string())
        .visualizer_v1_support(VisualizerV1Support {})
        .client_id("id".to_string())
        .artwork_v1_support(artwork())
        .build();
    assert_eq!(
        client.supported_roles(),
        [
            "player@v1",
            "artwork@v1",
            "visualizer@v1",
            "metadata@v1",
            "controller@v1"
        ]
    );
    assert_eq!(client.metadata_v1_support(), Some(&MetadataV1Support {}));
}

#[test]
fn each_role_can_be_configured_alone() {
    let builder = || {
        ProtocolClientBuilder::builder()
            .client_id("id".to_string())
            .name("name".to_string())
    };
    let artwork = builder().artwork_v1_support(artwork()).build();
    assert_eq!(artwork.supported_roles(), ["player@v1", "artwork@v1"]);
    let visualizer = builder().visualizer_v1_support(VisualizerV1Support {}).build();
    assert_eq!(visualizer.supported_roles(), ["player@v1", "visualizer@v1"]);
    let metadata = builder().metadata_v1_support(MetadataV1Support {}).build();
    assert_eq!(metadata.supported_roles(), ["player@v1", "metadata@v1"]);
    let controller = builder().controller_v1(true).build();
    assert_eq!(controller.supported_roles(), ["player@v1", "controller@v1"]);
    let no_controller = builder().controller_v1(false).build();
    assert_eq!(no_controller.supported_roles(), ["player@v1"]);
}

#[test]
fn a_configured_player_is_kept() {
    let player = PlayerV1Support {
        supported_formats: vec![pcm(16)],
        buffer_capacity: 1_024,
        supported_commands: Vec::new(),
    };
    let client = ProtocolClientBuilder::builder()
        .client_id("id".to_string())
        .name("name".to_string())
        .player_v1_support(player.clone())
        .build();
    assert_eq!(client.player_v1_support(), Some(&player));
    assert_eq!(client.into_hello().player_v1_support, Some(player));
}

#[test]
fn a_client_introduces_itself() {
    let hello = ProtocolClientBuilder::builder()
        .client_id("kitchen-1".to_string())
        .name("Kitchen".to_string())
        .product_name(Some("Player".to_string()))
        .software_version(Some("0.1.1".to_string()))
        .artwork_v1_support(artwork())
        .build()
        .into_hello();
    assert_eq!(hello.client_id, "kitchen-1");
    assert_eq!(hello.name, "Kitchen");
    assert_eq!(hello.version, 1);
    assert_eq!(hello.supported_roles, ["player@v1", "artwork@v1"]);
    assert_eq!(hello.player_v1_support, Some(default_player()));
    assert_eq!(hello.artwork_v1_support, Some(artwork()));
    assert_eq!(hello.visualizer_v1_support, None);
    assert_eq!(hello.metadata_v1_support, None);
    match hello.device_info {
        Some(device) => {
            assert_eq!(device.product_name, Some("Player".to_string()));
            assert_eq!(device.manufacturer, Some("Sendspin".to_string()));
            assert_eq!(device.software_version, Some("0.1.1".to_string()));
        }
        None => panic!("no device info"),
    }
}

#[test]
fn a_configured_manufacturer_is_kept() {
    let hello = ProtocolClientBuilder::builder()
        .client_id("id".to_string())
        .name("name".to_string())
        .manufacturer(Some("Acme".to_string()))
        .build()
        .into_hello();
    match hello.device_info {
        Some(device) => {
            assert_eq!(device.product_name, None);
            assert_eq!(device.manufacturer, Some("Acme".to_string()));
            assert_eq!(device.software_version, None);
        }
        None => panic!("no device info"),
    }
}
