use pipewire_capture::frame::{copy_frame, FrameFormat};
use pipewire_capture::negotiation::{
    format_offer, setup_stream, stream_request, Direction, Framerate, MediaSubtype, MediaType,
    SetupStep, Size,
};
use pipewire_capture::spa;
use pipewire_capture::spa::Chunk;

#[test]
fn a_request_asks_for_mapped_screen_video() {
    let request = stream_request(84);
    assert_eq!(request.name, "pipewire-capture");
    assert_eq!(request.media_type, "Video");
    assert_eq!(request.media_category, "Capture");
    assert_eq!(request.media_role, "Screen");
    assert_eq!(request.direction, Direction::Input);
    assert_eq!(request.node_id, 84);
    assert!(request.autoconnect);
    assert!(request.map_buffers);
}

#[test]
fn an_offer_prefers_full_hd_and_ends_at_the_largest_size() {
    let offer = format_offer();
    assert_eq!(offer.media_type, MediaType::Video);
    assert_eq!(offer.media_subtype, MediaSubtype::Raw);
    assert_eq!(offer.preferred_format, spa::SPA_VIDEO_FORMAT_BGRX);
    assert_eq!(offer.formats, vec![8, 12, 7, 11]);
    assert_eq!(
        offer.preferred_size,
        Size {
            width: 1920,
            height: 1080
        }
    );
    assert_eq!(
        offer.min_size,
        Size {
            width: 1,
            height: 1
        }
    );
    assert_eq!(
        offer.max_size,
        Size {
            width: 4096,
            height: 4096
        }
    );
    assert_eq!(offer.preferred_rate, Framerate { num: 60, denom: 1 });
    assert_eq!(offer.min_rate, Framerate { num: 0, denom: 1 });
    assert_eq!(
        offer.max_rate,
        Framerate {
            num: 1000,
            denom: 1
        }
    );
}

#[test]
fn every_offered_format_can_be_copied() {
    for pixel_format in format_offer().formats {
        let format = FrameFormat {
            width: 1,
            height: 1,
            pixel_format,
        };
        let chunk = Chunk {
            offset: 0,
            size: 4,
            stride: 0,
            flags: 0,
        };
        assert!(matches!(
            copy_frame(&[1, 2, 3, 4], &chunk, format),
            Ok(Some(_))
        ));
    }
}

#[test]
fn setting_up_goes_step_by_step() {
    let mut step = SetupStep::CreateStream;
    for expected in [
        SetupStep::RegisterListener,
        SetupStep::SerializeFormats,
        SetupStep::Connect,
        SetupStep::Ready,
        SetupStep::Ready,
    ] {
        step = setup_stream(step, Ok(())).ok().unwrap();
        assert_eq!(step, expected);
    }
}

#[test]
fn a_failed_step_is_a_pipewire_error() {
    for step in [
        SetupStep::CreateStream,
        SetupStep::RegisterListener,
        SetupStep::Connect,
    ] {
        assert_eq!(
            setup_stream(step, Err("refused".to_string()))
                .err()
                .unwrap()
                .to_string(),
            "PipeWire error: refused"
        );
    }
    assert_eq!(
        setup_stream(SetupStep::SerializeFormats, Err("Invalid".to_string()))
            .err()
            .unwrap()
            .to_string(),
        "PipeWire error: Failed to serialize format params: Invalid"
    );
}
