use thumbnail_generator::hresult::FAILURE;
use thumbnail_generator::pipeline::{
    accepts, begin, bitmap_byte_len, is_finished, step, Command, Event, Stage, ALPHA_ARGB, INTERPRETATION_SRGB,
    KERNEL_NEAREST, SIZE_DOWN,
};

fn drive(path: &str, cx: u32, events: &[Event]) -> (Stage, Vec<Command>) {
    let (mut stage, first) = begin(path, cx);
    let mut commands = vec![first];
    for event in events {
        assert!(accepts(&stage, event), "{:?} does not take {:?}", stage, event);
        let (next, command) = step(stage, *event);
        stage = next;
        commands.push(command);
    }
    (stage, commands)
}

fn released(commands: &[Command]) -> Vec<u64> {
    let mut out = Vec::new();
    for c in commands {
        if let Command::Release { image } = c {
            out.push(*image);
        }
    }
    out.sort();
    out
}

#[test]
fn empty_path_fails_at_once() {
    let (stage, command) = begin("", 256);
    assert_eq!(stage, Stage::Failed);
    assert_eq!(command, Command::Fail { hresult: -1 });
    assert!(is_finished(&stage));
}

#[test]
fn thumbnail_edge_is_capped_at_96() {
    let (stage, command) = begin("C:\\a.png", 256);
    assert_eq!(stage, Stage::AwaitLibraries { edge: 96 });
    assert_eq!(command, Command::LoadLibraries);
    let (_, command) = step(stage, Event::LibrariesLoaded { loaded: true });
    assert_eq!(
        command,
        Command::LoadThumbnail { width: 96, height: 96, size: 2, kernel: 0, auto_rotate: 1 }
    );
    assert_eq!(SIZE_DOWN, 2);
    assert_eq!(KERNEL_NEAREST, 0);
}

#[test]
fn small_edge_is_kept() {
    let (stage, _) = begin("x", 48);
    let (_, command) = step(stage, Event::LibrariesLoaded { loaded: true });
    assert_eq!(
        command,
        Command::LoadThumbnail { width: 48, height: 48, size: 2, kernel: 0, auto_rotate: 1 }
    );
    let (stage, _) = begin("x", 96);
    assert_eq!(stage, Stage::AwaitLibraries { edge: 96 });
}

#[test]
fn missing_libraries_fail() {
    let (stage, commands) = drive("x", 96, &[Event::LibrariesLoaded { loaded: false }]);
    assert_eq!(stage, Stage::Failed);
    assert_eq!(commands.last(), Some(&Command::Fail { hresult: FAILURE }));
}

#[test]
fn failed_load_releases_nothing() {
    let (stage, commands) = drive(
        "x",
        96,
        &[
            Event::LibrariesLoaded { loaded: true },
            Event::ThumbnailLoaded { status: -1, image: 0 },
        ],
    );
    assert_eq!(stage, Stage::Failed);
    assert!(released(&commands).is_empty());
}

#[test]
fn srgb_rgba_image_goes_straight_to_bitmap() {
    let (stage, commands) = drive(
        "x",
        96,
        &[
            Event::LibrariesLoaded { loaded: true },
            Event::ThumbnailLoaded { status: 0, image: 7 },
            Event::Interpretation { interpretation: INTERPRETATION_SRGB },
            Event::Bands { bands: 4 },
            Event::Geometry { width: 96, height: 64 },
            Event::BitmapCreated { bitmap: 900, valid: true },
            Event::Released,
        ],
    );
    assert_eq!(stage, Stage::Succeeded);
    assert_eq!(
        commands,
        vec![
            Command::LoadLibraries,
            Command::LoadThumbnail { width: 96, height: 96, size: 2, kernel: 0, auto_rotate: 1 },
            Command::QueryInterpretation { image: 7 },
            Command::QueryBands { image: 7 },
            Command::QueryGeometry { image: 7 },
            Command::CreateBitmap { image: 7, width: 96, height: 64, planes: 1, bit_count: 32, byte_len: 24576 },
            Command::Release { image: 7 },
            Command::Finish { bitmap: 900, alpha: 2 },
        ]
    );
    assert_eq!(ALPHA_ARGB, 2);
}

#[test]
fn conversions_release_every_intermediate_image() {
    let (stage, commands) = drive(
        "x",
        200,
        &[
            Event::LibrariesLoaded { loaded: true },
            Event::ThumbnailLoaded { status: 0, image: 1 },
            Event::Interpretation { interpretation: 27 },
            Event::ColourspaceConverted { status: 0, image: 2 },
            Event::Released,
            Event::Bands { bands: 3 },
            Event::AlphaAdded { status: 0, image: 3 },
            Event::Released,
            Event::Geometry { width: 10, height: 20 },
            Event::BitmapCreated { bitmap: 44, valid: true },
            Event::Released,
        ],
    );
    assert_eq!(stage, Stage::Succeeded);
    assert_eq!(commands[3], Command::ConvertColourspace { image: 1, space: 22 });
    assert_eq!(commands[4], Command::Release { image: 1 });
    assert_eq!(commands[6], Command::AddAlpha { image: 2 });
    assert_eq!(commands[7], Command::Release { image: 2 });
    assert_eq!(
        commands[9],
        Command::CreateBitmap { image: 3, width: 10, height: 20, planes: 1, bit_count: 32, byte_len: 800 }
    );
    assert_eq!(released(&commands), vec![1, 2, 3]);
    assert_eq!(commands.last(), Some(&Command::Finish { bitmap: 44, alpha: 2 }));
}

#[test]
fn failed_colour_conversion_releases_the_source() {
    let (stage, commands) = drive(
        "x",
        96,
        &[
            Event::LibrariesLoaded { loaded: true },
            Event::ThumbnailLoaded { status: 0, image: 5 },
            Event::Interpretation { interpretation: 1 },
            Event::ColourspaceConverted { status: -1, image: 0 },
            Event::Released,
        ],
    );
    assert_eq!(stage, Stage::Failed);
    assert_eq!(released(&commands), vec![5]);
    assert_eq!(commands.last(), Some(&Command::Fail { hresult: -1 }));
}

#[test]
fn failed_alpha_releases_the_source() {
    let (stage, commands) = drive(
        "x",
        96,
        &[
            Event::LibrariesLoaded { loaded: true },
            Event::ThumbnailLoaded { status: 0, image: 5 },
            Event::Interpretation { interpretation: 22 },
            Event::Bands { bands: 1 },
            Event::AlphaAdded { status: 3, image: 0 },
            Event::Released,
        ],
    );
    assert_eq!(stage, Stage::Failed);
    assert_eq!(released(&commands), vec![5]);
}

#[test]
fn invalid_bitmap_fails_after_release() {
    let (stage, commands) = drive(
        "x",
        96,
        &[
            Event::LibrariesLoaded { loaded: true },
            Event::ThumbnailLoaded { status: 0, image: 8 },
            Event::Interpretation { interpretation: 22 },
            Event::Bands { bands: 4 },
            Event::Geometry { width: 1, height: 1 },
            Event::BitmapCreated { bitmap: 0, valid: false },
            Event::Released,
        ],
    );
    assert_eq!(stage, Stage::Failed);
    assert_eq!(released(&commands), vec![8]);
    assert_eq!(commands.last(), Some(&Command::Fail { hresult: -1 }));
}

#[test]
fn stages_take_only_their_report() {
    assert!(!accepts(&Stage::AwaitThumbnail, &Event::Released));
    assert!(!accepts(&Stage::Succeeded, &Event::Released));
    assert!(!accepts(&Stage::Failed, &Event::LibrariesLoaded { loaded: true }));
    assert!(accepts(&Stage::ReleaseBeforeFailure, &Event::Released));
    assert!(!is_finished(&Stage::AwaitThumbnail));
}

#[test]
fn longest_request_takes_eleven_reports() {
    let (_, commands) = drive(
        "x",
        96,
        &[
            Event::LibrariesLoaded { loaded: true },
            Event::ThumbnailLoaded { status: 0, image: 1 },
            Event::Interpretation { interpretation: 2 },
            Event::ColourspaceConverted { status: 0, image: 2 },
            Event::Released,
            Event::Bands { bands: 3 },
            Event::AlphaAdded { status: 0, image: 3 },
            Event::Released,
            Event::Geometry { width: 10, height: 20 },
            Event::BitmapCreated { bitmap: 44, valid: true },
            Event::Released,
        ],
    );
    assert_eq!(commands.len(), 12);
}

#[test]
fn image_without_pixels_still_gets_a_bitmap() {
    let (stage, commands) = drive(
        "x",
        96,
        &[
            Event::LibrariesLoaded { loaded: true },
            Event::ThumbnailLoaded { status: 0, image: 4 },
            Event::Interpretation { interpretation: 22 },
            Event::Bands { bands: 4 },
            Event::Geometry { width: 0, height: 10 },
            Event::BitmapCreated { bitmap: 77, valid: true },
            Event::Released,
        ],
    );
    assert_eq!(stage, Stage::Succeeded);
    assert_eq!(
        commands[5],
        Command::CreateBitmap { image: 4, width: 0, height: 10, planes: 1, bit_count: 32, byte_len: 0 }
    );
    assert_eq!(released(&commands), vec![4]);
    assert_eq!(commands.last(), Some(&Command::Finish { bitmap: 77, alpha: 2 }));
}

#[test]
fn bitmap_byte_lengths() {
    assert_eq!(bitmap_byte_len(96, 64), Some(24576));
    assert_eq!(bitmap_byte_len(1, 1), Some(4));
    assert_eq!(bitmap_byte_len(0, 5), Some(0));
    assert_eq!(bitmap_byte_len(5, -1), Some(0));
    assert_eq!(bitmap_byte_len(i32::MAX, i32::MAX), Some((i32::MAX as usize) * (i32::MAX as usize) * 4));
}
