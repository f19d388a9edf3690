use usb_kvm::display::{
    completed, DisplayDescriptor, DisplayMode, EngineAction, EngineFollowUp, GudEngine,
    GudRequest, PixelFormat, Polled, TransferDescriptor, BYTES_PER_PIXEL, HEIGHT,
    POLL_TIMEOUT_MS, REFRESH_HZ, WIDTH,
};
use usb_kvm::AppEvent;

fn transfer() -> TransferDescriptor {
    TransferDescriptor {
        x: 16,
        y: 32,
        width: 64,
        height: 8,
        length: 64 * 8 * 4,
        compression: 0,
        compressed_length: 0,
    }
}

#[test]
fn built_in_configuration() {
    assert_eq!(WIDTH, 768);
    assert_eq!(HEIGHT, 1024);
    assert_eq!(REFRESH_HZ, 60);
    assert_eq!(BYTES_PER_PIXEL, 4);
    assert_eq!(POLL_TIMEOUT_MS, 100);
    let engine = GudEngine::new();
    assert_eq!(engine.width(), 768);
    assert_eq!(engine.height(), 1024);
    assert_eq!(engine.stride(), 3072);
    assert_eq!(engine.frame_len(), 768 * 1024 * 4);
}

#[test]
fn display_modes_reply_for_768_by_1024() {
    let engine = GudEngine::with_resolution(768, 1024).unwrap();
    let action = engine.handle(Polled::Request(GudRequest::GetDisplayModes));
    assert_eq!(
        action,
        EngineAction::SendDisplayModes(vec![DisplayMode {
            clock: 47185,
            hdisplay: 768,
            hsync_start: 768,
            hsync_end: 768,
            htotal: 768,
            vdisplay: 1024,
            vsync_start: 1024,
            vsync_end: 1024,
            vtotal: 1024,
            flags: 0,
        }])
    );
}

#[test]
fn descriptor_reply_repeats_the_resolution() {
    let engine = GudEngine::new();
    assert_eq!(
        engine.handle(Polled::Request(GudRequest::GetDescriptor)),
        EngineAction::SendDescriptor(DisplayDescriptor {
            width: 768,
            height: 1024,
            buffer_width: 768,
            buffer_height: 1024,
        })
    );
}

#[test]
fn pixel_formats_reply_has_one_format() {
    let engine = GudEngine::new();
    assert_eq!(
        engine.handle(Polled::Request(GudRequest::GetPixelFormats)),
        EngineAction::SendPixelFormats(vec![PixelFormat::Xrgb8888])
    );
}

#[test]
fn buffer_request_is_received_with_stride_and_pixel_size() {
    let engine = GudEngine::new();
    assert_eq!(
        engine.handle(Polled::Request(GudRequest::Buffer(transfer()))),
        EngineAction::ReceiveBuffer { transfer: transfer(), stride: 3072, bytes_per_pixel: 4 }
    );
}

#[test]
fn timeouts_and_unrecognized_requests_are_dropped() {
    let engine = GudEngine::new();
    assert_eq!(engine.handle(Polled::TimedOut), EngineAction::Idle);
    assert_eq!(engine.handle(Polled::Unrecognized), EngineAction::Idle);
}

#[test]
fn pixel_clock_formula() {
    let engine = GudEngine::with_resolution(1920, 1080).unwrap();
    assert_eq!(engine.display_mode().clock, 124416);
    assert_eq!(engine.stride(), 7680);
    let small = GudEngine::with_resolution(1, 1).unwrap();
    assert_eq!(small.display_mode().clock, 0);
    let odd = GudEngine::with_resolution(33, 17).unwrap();
    assert_eq!(odd.display_mode().clock, 33);
    assert_eq!(odd.frame_len(), 33 * 17 * 4);
}

#[test]
fn resolutions_that_cannot_be_served_are_refused() {
    assert_eq!(GudEngine::with_resolution(0, 1024), None);
    assert_eq!(GudEngine::with_resolution(768, 0), None);
    assert_eq!(GudEngine::with_resolution(65536, 1), None);
    assert_eq!(GudEngine::with_resolution(1, 65536), None);
    assert_eq!(GudEngine::with_resolution(65535, 65535), None);
    // 71_582_788 pixels is the most whose clock fits.
    assert!(GudEngine::with_resolution(35791394, 2).is_none());
    assert!(GudEngine::with_resolution(17894, 4000).is_some());
    assert!(GudEngine::with_resolution(17896, 4000).is_none());
    assert!(GudEngine::with_resolution(65535, 1092).is_some());
    assert!(GudEngine::with_resolution(65535, 1093).is_none());
}

#[test]
fn arrived_frame_is_announced() {
    let action = EngineAction::ReceiveBuffer { transfer: transfer(), stride: 3072, bytes_per_pixel: 4 };
    assert_eq!(completed(&action, true), EngineFollowUp::Notify(AppEvent::DisplayFrameArrived));
    assert_eq!(completed(&action, false), EngineFollowUp::Stop);
}

#[test]
fn replies_go_on_or_stop_the_engine() {
    let engine = GudEngine::new();
    for request in [GudRequest::GetDescriptor, GudRequest::GetPixelFormats, GudRequest::GetDisplayModes] {
        let action = engine.handle(Polled::Request(request));
        assert_eq!(completed(&action, true), EngineFollowUp::Continue);
        assert_eq!(completed(&action, false), EngineFollowUp::Stop);
    }
    assert_eq!(completed(&EngineAction::Idle, true), EngineFollowUp::Continue);
    assert_eq!(completed(&EngineAction::Idle, false), EngineFollowUp::Continue);
}
