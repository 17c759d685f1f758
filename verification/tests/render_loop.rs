use renderloop::DEFAULT_SIZE;
use renderloop::controller::{Command, Controller, Event};
use renderloop::params::{pack_frame_params, FrameParams, FRAME_PARAMS_SIZE};
use renderloop::surface::{PresentMode, SurfaceConfig, MAX_QUEUED_FRAMES};

fn count_renders(cmds: &[Command]) -> usize {
    cmds.iter()
        .filter(|c| matches!(c, Command::RenderFrame { .. }))
        .count()
}

fn count_rearms(cmds: &[Command]) -> usize {
    cmds.iter()
        .filter(|c| matches!(c, Command::RearmFrameCallback))
        .count()
}

fn count_surface_configures(cmds: &[Command]) -> usize {
    cmds.iter()
        .filter(|c| matches!(c, Command::ConfigureSurface { .. }))
        .count()
}

#[test]
fn default_size_fallback() {
    let mut c = Controller::new(0);
    let cmds = c.dispatch(
        Event::Configure {
            width: None,
            height: None,
        },
        0,
    );
    assert_eq!(c.width, 256);
    assert_eq!(c.height, 256);
    assert_eq!(
        cmds[0],
        Command::ConfigureSurface {
            width: DEFAULT_SIZE,
            height: DEFAULT_SIZE,
        }
    );
}

#[test]
fn resize_reconfigures_before_render() {
    let mut c = Controller::new(100);
    let cmds = c.dispatch(
        Event::Configure {
            width: Some(800),
            height: Some(600),
        },
        150,
    );
    assert_eq!(
        cmds,
        vec![
            Command::ConfigureSurface {
                width: 800,
                height: 600,
            },
            Command::RenderFrame {
                width: 800,
                height: 600,
                elapsed_nanos: 50,
            },
        ]
    );
}

#[test]
fn reconfigure_is_idempotent() {
    let mut c = Controller::new(0);
    let first = c.dispatch(
        Event::Configure {
            width: Some(640),
            height: Some(480),
        },
        10,
    );
    let state_after_first = c;
    let second = c.dispatch(
        Event::Configure {
            width: Some(640),
            height: Some(480),
        },
        10,
    );
    assert_eq!(first, second);
    assert_eq!(c, state_after_first);
    assert_eq!(count_surface_configures(&first), 1);
    assert_eq!(count_renders(&first), 1);
}

#[test]
fn elapsed_time_is_monotonic_and_exact() {
    let mut c = Controller::new(1_000);
    c.dispatch(
        Event::Configure {
            width: Some(300),
            height: Some(200),
        },
        1_000,
    );
    let a = c.dispatch(Event::FrameReady, 4_000);
    let b = c.dispatch(Event::FrameReady, 9_500);
    let ea = match a[0] {
        Command::RenderFrame { elapsed_nanos, .. } => elapsed_nanos,
        _ => panic!("expected a render"),
    };
    let eb = match b[0] {
        Command::RenderFrame { elapsed_nanos, .. } => elapsed_nanos,
        _ => panic!("expected a render"),
    };
    assert_eq!(ea, 3_000);
    assert_eq!(eb, 8_500);
    assert!(ea <= eb);
}

#[test]
fn frame_ready_renders_rearms_and_commits() {
    let mut c = Controller::new(0);
    c.dispatch(
        Event::Configure {
            width: Some(512),
            height: Some(512),
        },
        0,
    );
    let cmds = c.dispatch(Event::FrameReady, 7);
    assert_eq!(
        cmds,
        vec![
            Command::RenderFrame {
                width: 512,
                height: 512,
                elapsed_nanos: 7,
            },
            Command::RearmFrameCallback,
            Command::CommitSurface,
        ]
    );
}

#[test]
fn frame_ready_before_first_configure_is_ignored() {
    let mut c = Controller::new(0);
    let cmds = c.dispatch(Event::FrameReady, 5);
    assert!(cmds.is_empty());
}

#[test]
fn n_frame_callbacks_give_n_renders_and_n_rearms() {
    let mut c = Controller::new(0);
    c.dispatch(
        Event::Configure {
            width: Some(320),
            height: Some(240),
        },
        0,
    );
    let mut all = Vec::new();
    for t in 1..=10u64 {
        all.extend(c.dispatch(Event::FrameReady, t));
    }
    assert_eq!(count_renders(&all), 10);
    assert_eq!(count_rearms(&all), 10);
    assert_eq!(count_surface_configures(&all), 0);
}

#[test]
fn close_stops_rendering() {
    let mut c = Controller::new(0);
    c.dispatch(
        Event::Configure {
            width: Some(256),
            height: Some(256),
        },
        0,
    );
    let close_cmds = c.dispatch(Event::CloseRequested, 3);
    assert!(close_cmds.is_empty());
    assert!(!c.running);
    let after = c.dispatch(Event::FrameReady, 4);
    assert!(after.is_empty());
    let after_resize = c.dispatch(
        Event::Configure {
            width: Some(100),
            height: Some(100),
        },
        5,
    );
    assert!(after_resize.is_empty());
}

#[test]
fn ignored_events_emit_nothing() {
    let mut c = Controller::new(0);
    c.dispatch(
        Event::Configure {
            width: Some(256),
            height: Some(256),
        },
        0,
    );
    let w = c.width;
    let h = c.height;
    for ev in [
        Event::ScaleFactorChanged,
        Event::TransformChanged,
        Event::SurfaceOutputChanged,
        Event::OutputChanged,
        Event::SeatChanged,
    ] {
        let cmds = c.dispatch(ev, 1);
        assert!(cmds.is_empty());
    }
    assert!(c.running);
    assert_eq!((c.width, c.height), (w, h));
}

#[test]
fn pump_dispatches_in_order_and_reports_stop() {
    let mut c = Controller::new(0);
    let events = vec![
        Event::Configure {
            width: Some(400),
            height: Some(300),
        },
        Event::FrameReady,
        Event::CloseRequested,
        Event::FrameReady,
    ];
    let (cmds, stop) = c.pump(&events, 20);
    assert!(stop);
    assert!(!c.running);
    assert_eq!(
        cmds,
        vec![
            Command::ConfigureSurface {
                width: 400,
                height: 300,
            },
            Command::RenderFrame {
                width: 400,
                height: 300,
                elapsed_nanos: 20,
            },
            Command::RenderFrame {
                width: 400,
                height: 300,
                elapsed_nanos: 20,
            },
            Command::RearmFrameCallback,
            Command::CommitSurface,
        ]
    );
}

#[test]
fn pump_without_close_keeps_running() {
    let mut c = Controller::new(0);
    let events = vec![
        Event::Configure {
            width: None,
            height: None,
        },
        Event::FrameReady,
    ];
    let (cmds, stop) = c.pump(&events, 0);
    assert!(!stop);
    assert!(c.running);
    assert_eq!(count_renders(&cmds), 2);
}

#[test]
fn end_to_end_scenario() {
    let mut c = Controller::new(0);

    // First configure carries no explicit size: one render at 256x256,
    // elapsed time still zero.
    let first = c.dispatch(
        Event::Configure {
            width: None,
            height: None,
        },
        0,
    );
    assert_eq!(
        first,
        vec![
            Command::ConfigureSurface {
                width: 256,
                height: 256,
            },
            Command::RenderFrame {
                width: 256,
                height: 256,
                elapsed_nanos: 0,
            },
        ]
    );

    // Frame-ready: a second render, later in time, resolution unchanged.
    let second = c.dispatch(Event::FrameReady, 16_000_000);
    assert_eq!(
        second[0],
        Command::RenderFrame {
            width: 256,
            height: 256,
            elapsed_nanos: 16_000_000,
        }
    );
    assert_eq!(second[1], Command::RearmFrameCallback);

    // Resize to 800x600: the render that follows uses the new size.
    let third = c.dispatch(
        Event::Configure {
            width: Some(800),
            height: Some(600),
        },
        32_000_000,
    );
    assert_eq!(
        third[1],
        Command::RenderFrame {
            width: 800,
            height: 600,
            elapsed_nanos: 32_000_000,
        }
    );

    // Close: the loop stops and nothing renders again.
    let (cmds, stop) = c.pump(&vec![Event::CloseRequested, Event::FrameReady], 48_000_000);
    assert!(cmds.is_empty());
    assert!(stop);
    assert!(!c.running);
}

#[test]
fn frame_params_pack_to_exact_layout() {
    let p = FrameParams {
        time_bits: 1.0f32.to_bits(),
        width_bits: 800.0f32.to_bits(),
        height_bits: 600.0f32.to_bits(),
    };
    let bytes = pack_frame_params(&p);
    assert_eq!(bytes.len(), FRAME_PARAMS_SIZE);
    let mut expect = Vec::new();
    expect.extend_from_slice(&1.0f32.to_le_bytes());
    expect.extend_from_slice(&0.0f32.to_le_bytes());
    expect.extend_from_slice(&800.0f32.to_le_bytes());
    expect.extend_from_slice(&600.0f32.to_le_bytes());
    assert_eq!(bytes, expect);
}

#[test]
fn frame_params_padding_word_is_zero() {
    let p = FrameParams {
        time_bits: u32::MAX,
        width_bits: u32::MAX,
        height_bits: u32::MAX,
    };
    let bytes = pack_frame_params(&p);
    assert_eq!(&bytes[4..8], &[0, 0, 0, 0]);
    assert_eq!(&bytes[0..4], &[255, 255, 255, 255]);
}

#[test]
fn surface_config_picks_first_format() {
    let formats = vec![77u64, 12, 3];
    let cfg = SurfaceConfig::from_capabilities(&formats, 800, 600).unwrap();
    assert_eq!(
        cfg,
        SurfaceConfig {
            width: 800,
            height: 600,
            format: 77,
            present_mode: PresentMode::Mailbox,
            max_queued_frames: MAX_QUEUED_FRAMES,
        }
    );
}

#[test]
fn surface_config_fails_without_formats() {
    let formats: Vec<u64> = Vec::new();
    assert!(SurfaceConfig::from_capabilities(&formats, 1, 1).is_none());
}

#[test]
fn largest_size_and_time_are_carried_exactly() {
    let mut c = Controller::new(0);
    let cmds = c.dispatch(
        Event::Configure {
            width: Some(u32::MAX),
            height: Some(u32::MAX),
        },
        u64::MAX,
    );
    assert_eq!(
        cmds[1],
        Command::RenderFrame {
            width: u32::MAX,
            height: u32::MAX,
            elapsed_nanos: u64::MAX,
        }
    );
    assert_eq!((c.width, c.height), (u32::MAX, u32::MAX));
}

#[test]
fn new_controller_starts_running_and_unconfigured() {
    let c = Controller::new(42);
    assert!(c.running);
    assert!(!c.configured);
    assert_eq!(c.width, DEFAULT_SIZE);
    assert_eq!(c.height, DEFAULT_SIZE);
    assert_eq!(c.start_nanos, 42);
}
