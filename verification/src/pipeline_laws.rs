//! What holds of every run of the thumbnail pipeline.
use vstd::prelude::*;
use vstd::multiset::Multiset;
use crate::hresult::FAILURE;
use crate::pipeline::{
    expects, fits_in_memory, is_terminal, pixel_bytes, start, thumbnail_edge, transition, Command,
    Event, Stage, ALPHA_ARGB, BITMAP_BITS, BITMAP_PLANES, KERNEL_NEAREST, MAX_THUMBNAIL_EDGE,
    SIZE_DOWN,
};

verus! {

broadcast use vstd::multiset::group_multiset_axioms;

/// The libvips images that the caller holds on behalf of a request in `stage`.
pub open spec fn held(stage: Stage) -> Multiset<u64> {
    match stage {
        Stage::AwaitInterpretation { image } => Multiset::singleton(image),
        Stage::AwaitColourspace { source } => Multiset::singleton(source),
        Stage::ReleaseBeforeBands { image } => Multiset::singleton(image),
        Stage::AwaitBands { image } => Multiset::singleton(image),
        Stage::AwaitAlpha { source } => Multiset::singleton(source),
        Stage::ReleaseBeforeGeometry { image } => Multiset::singleton(image),
        Stage::AwaitGeometry { image } => Multiset::singleton(image),
        Stage::AwaitBitmap { image } => Multiset::singleton(image),
        _ => Multiset::empty(),
    }
}

/// The image that libvips hands over when `event` is reported in `stage`.
pub open spec fn acquired(stage: Stage, event: Event) -> Multiset<u64> {
    match (stage, event) {
        (Stage::AwaitThumbnail, Event::ThumbnailLoaded { status, image }) => if status == 0 {
            Multiset::singleton(image)
        } else {
            Multiset::empty()
        },
        (Stage::AwaitColourspace { .. }, Event::ColourspaceConverted { status, image }) => {
            if status == 0 {
                Multiset::singleton(image)
            } else {
                Multiset::empty()
            }
        },
        (Stage::AwaitAlpha { .. }, Event::AlphaAdded { status, image }) => if status == 0 {
            Multiset::singleton(image)
        } else {
            Multiset::empty()
        },
        _ => Multiset::empty(),
    }
}

/// The image that `command` releases.
pub open spec fn released(command: Command) -> Multiset<u64> {
    match command {
        Command::Release { image } => Multiset::singleton(image),
        _ => Multiset::empty(),
    }
}

/// The stage reached, and the commands given, when `events` are reported
/// one after another from `stage`.
pub open spec fn run(stage: Stage, events: Seq<Event>) -> (Stage, Seq<Command>)
    decreases events.len(),
{
    if events.len() == 0 {
        (stage, seq![])
    } else {
        let (next, command) = transition(stage, events[0]);
        let (last, commands) = run(next, events.drop_first());
        (last, seq![command] + commands)
    }
}

/// Every report in `events` is the one its stage waits for.
pub open spec fn well_ordered(stage: Stage, events: Seq<Event>) -> bool
    decreases events.len(),
{
    events.len() == 0 || (expects(stage, events[0]) && well_ordered(
        transition(stage, events[0]).0,
        events.drop_first(),
    ))
}

/// All images handed over while `events` are reported from `stage`.
pub open spec fn acquired_along(stage: Stage, events: Seq<Event>) -> Multiset<u64>
    decreases events.len(),
{
    if events.len() == 0 {
        Multiset::empty()
    } else {
        acquired(stage, events[0]).add(
            acquired_along(transition(stage, events[0]).0, events.drop_first()),
        )
    }
}

/// All images released by `commands`.
pub open spec fn released_by(commands: Seq<Command>) -> Multiset<u64>
    decreases commands.len(),
{
    if commands.len() == 0 {
        Multiset::empty()
    } else {
        released(commands[0]).add(released_by(commands.drop_first()))
    }
}

/// An upper bound on the reports a request in `stage` can still take.
pub open spec fn remaining_steps(stage: Stage) -> nat {
    match stage {
        Stage::AwaitLibraries { .. } => 11,
        Stage::AwaitThumbnail => 10,
        Stage::AwaitInterpretation { .. } => 9,
        Stage::AwaitColourspace { .. } => 8,
        Stage::ReleaseBeforeBands { .. } => 7,
        Stage::AwaitBands { .. } => 6,
        Stage::AwaitAlpha { .. } => 5,
        Stage::ReleaseBeforeGeometry { .. } => 4,
        Stage::AwaitGeometry { .. } => 3,
        Stage::AwaitBitmap { .. } => 2,
        Stage::ReleaseBeforeFinish { .. } => 1,
        Stage::ReleaseBeforeFailure => 1,
        Stage::Succeeded => 0,
        Stage::Failed => 0,
    }
}

/// Every step keeps the books on images: what was held plus what the report
/// hands over equals what is held afterwards plus what the command releases.
pub proof fn law_step_keeps_images(stage: Stage, event: Event)
    requires
        expects(stage, event),
    ensures
        held(stage).add(acquired(stage, event)) == held(transition(stage, event).0).add(
            released(transition(stage, event).1),
        ),
{
    let (next, command) = transition(stage, event);
    assert(held(stage).add(acquired(stage, event)) =~= held(next).add(released(command)));
}

/// Over any run, the images held at the start plus those handed over equal
/// the images held at the end plus those released.
pub proof fn law_run_keeps_images(stage: Stage, events: Seq<Event>)
    requires
        well_ordered(stage, events),
    ensures
        held(stage).add(acquired_along(stage, events)) == held(run(stage, events).0).add(
            released_by(run(stage, events).1),
        ),
    decreases events.len(),
{
    if events.len() == 0 {
        assert(held(stage).add(Multiset::empty()) =~= held(stage));
    } else {
        let (next, command) = transition(stage, events[0]);
        let rest = events.drop_first();
        law_step_keeps_images(stage, events[0]);
        law_run_keeps_images(next, rest);
        let (last, commands) = run(next, rest);
        assert((seq![command] + commands).drop_first() =~= commands);
        assert((seq![command] + commands)[0] == command);
        assert(run(stage, events) == (last, seq![command] + commands));
        assert(acquired_along(stage, events) == acquired(stage, events[0]).add(
            acquired_along(next, rest),
        ));
        assert(released_by(seq![command] + commands) == released(command).add(
            released_by(commands),
        ));
        let before = held(stage).add(acquired_along(stage, events));
        let after = held(last).add(released_by(seq![command] + commands));
        assert forall|x: u64| before.count(x) == after.count(x) by {
            assert(held(stage).add(acquired(stage, events[0])).count(x) == held(next).add(
                released(command),
            ).count(x));
            assert(held(next).add(acquired_along(next, rest)).count(x) == held(last).add(
                released_by(commands),
            ).count(x));
        }
        assert(before =~= after);
    }
}

/// A request that has ended has released every image libvips handed over,
/// each as often as it was handed over, and nothing else.
pub proof fn law_no_image_leaks(path_is_empty: bool, cx: u32, events: Seq<Event>)
    requires
        well_ordered(start(path_is_empty, cx).0, events),
        is_terminal(run(start(path_is_empty, cx).0, events).0),
    ensures
        acquired_along(start(path_is_empty, cx).0, events) == released_by(
            run(start(path_is_empty, cx).0, events).1,
        ),
{
    let first = start(path_is_empty, cx).0;
    law_run_keeps_images(first, events);
    assert(held(first) =~= Multiset::empty());
    assert(held(run(first, events).0) =~= Multiset::empty());
    assert(acquired_along(first, events) =~= held(first).add(acquired_along(first, events)));
    assert(released_by(run(first, events).1) =~= held(run(first, events).0).add(
        released_by(run(first, events).1),
    ));
}

/// Each report brings the request closer to its end.
pub proof fn law_step_progresses(stage: Stage, event: Event)
    requires
        expects(stage, event),
    ensures
        remaining_steps(transition(stage, event).0) < remaining_steps(stage),
{
}

/// No run is longer than the bound of the stage it starts in.
pub proof fn law_runs_are_bounded(stage: Stage, events: Seq<Event>)
    requires
        well_ordered(stage, events),
    ensures
        events.len() <= remaining_steps(stage),
    decreases events.len(),
{
    if events.len() > 0 {
        law_step_progresses(stage, events[0]);
        law_runs_are_bounded(transition(stage, events[0]).0, events.drop_first());
    }
}

/// A request takes at most eleven reports from its start.
pub proof fn law_requests_are_bounded(path_is_empty: bool, cx: u32, events: Seq<Event>)
    requires
        well_ordered(start(path_is_empty, cx).0, events),
    ensures
        events.len() <= 11,
{
    law_runs_are_bounded(start(path_is_empty, cx).0, events);
}

/// A request that has ended takes no further report.
pub proof fn law_ended_requests_stay_ended(stage: Stage, event: Event)
    requires
        is_terminal(stage),
    ensures
        !expects(stage, event),
{
}

/// A step ends the request with `Finish` exactly when it succeeds and with
/// `Fail` exactly when it fails; failures report `FAILURE` and the bitmap is
/// handed over as ARGB.
pub proof fn law_step_outcomes(stage: Stage, event: Event)
    requires
        expects(stage, event),
    ensures
        (transition(stage, event).1 is Finish) == (transition(stage, event).0 is Succeeded),
        (transition(stage, event).1 is Fail) == (transition(stage, event).0 is Failed),
        transition(stage, event).1 matches Command::Fail { hresult } ==> hresult == FAILURE,
        transition(stage, event).1 matches Command::Finish { alpha, .. } ==> alpha == ALPHA_ARGB,
{
}

/// A request fails at its start exactly when the path is empty, and then
/// reports `FAILURE`.
pub proof fn law_start_outcomes(path_is_empty: bool, cx: u32)
    ensures
        (start(path_is_empty, cx).1 is Fail) == path_is_empty,
        (start(path_is_empty, cx).0 is Failed) == path_is_empty,
        start(path_is_empty, cx).1 matches Command::Fail { hresult } ==> hresult == FAILURE,
{
}

/// Every bitmap is made, one plane of 32 bits per pixel, from the image that
/// the request holds at that moment, and from exactly the bytes of its
/// four-band pixels (none when a side is not positive).
pub proof fn law_bitmaps_are_32_bit(stage: Stage, event: Event)
    requires
        expects(stage, event),
    ensures
        transition(stage, event).1 matches Command::CreateBitmap {
            image,
            width,
            height,
            planes,
            bit_count,
            byte_len,
        } ==> planes == BITMAP_PLANES && bit_count == BITMAP_BITS && held(stage).count(image)
            > 0 && fits_in_memory(width, height) && byte_len == pixel_bytes(width, height),
{
}

/// The report that answers `command`, by kind; `Finish` and `Fail` take none.
pub open spec fn answers(command: Command, event: Event) -> bool {
    match command {
        Command::LoadLibraries => event is LibrariesLoaded,
        Command::LoadThumbnail { .. } => event is ThumbnailLoaded,
        Command::QueryInterpretation { .. } => event is Interpretation,
        Command::ConvertColourspace { .. } => event is ColourspaceConverted,
        Command::QueryBands { .. } => event is Bands,
        Command::AddAlpha { .. } => event is AlphaAdded,
        Command::QueryGeometry { .. } => event is Geometry,
        Command::CreateBitmap { .. } => event is BitmapCreated,
        Command::Release { .. } => event is Released,
        Command::Finish { .. } => false,
        Command::Fail { .. } => false,
    }
}

/// The stage a step leads to waits for exactly the report that answers the
/// command it gives, and the command ends the request exactly when the stage
/// is final: whoever carries out each command and reports its result never
/// hands the pipeline a report it does not take.
pub proof fn law_commands_are_answered(stage: Stage, event: Event, next_event: Event)
    requires
        expects(stage, event),
    ensures
        expects(transition(stage, event).0, next_event) == answers(
            transition(stage, event).1,
            next_event,
        ),
        is_terminal(transition(stage, event).0) == (transition(stage, event).1 is Finish
            || transition(stage, event).1 is Fail),
{
}

/// The same holds of the first stage and command of a request.
pub proof fn law_start_is_answered(path_is_empty: bool, cx: u32, event: Event)
    ensures
        expects(start(path_is_empty, cx).0, event) == answers(start(path_is_empty, cx).1, event),
        is_terminal(start(path_is_empty, cx).0) == (start(path_is_empty, cx).1 is Fail),
{
}

/// Every command after the first, other than a failure, comes after the
/// report that the libvips libraries were loaded: no image is touched before.
pub proof fn law_libraries_come_first(cx: u32, events: Seq<Event>, i: int)
    requires
        well_ordered(start(false, cx).0, events),
        0 <= i < run(start(false, cx).0, events).1.len(),
        !(run(start(false, cx).0, events).1[i] is Fail),
    ensures
        events[0] == (Event::LibrariesLoaded { loaded: true }),
{
    let first = start(false, cx).0;
    if events[0] != (Event::LibrariesLoaded { loaded: true }) {
        assert(events.len() > 0);
        let next = transition(first, events[0]).0;
        assert(expects(first, events[0]));
        assert(next is Failed);
        assert(well_ordered(next, events.drop_first()));
        assert(events.drop_first().len() == 0);
        assert(run(next, events.drop_first()).1 =~= Seq::<Command>::empty());
        assert(run(first, events).1 =~= seq![transition(first, events[0]).1]);
    }
}

/// No step goes back to waiting for the libraries.
proof fn lemma_libraries_only_at_start(stage: Stage, event: Event)
    ensures
        !(transition(stage, event).0 is AwaitLibraries),
{
}

/// Only a request that waits for the libraries asks for a thumbnail.
proof fn lemma_thumbnail_only_after_libraries(stage: Stage, events: Seq<Event>, i: int)
    requires
        !(stage is AwaitLibraries),
        0 <= i < run(stage, events).1.len(),
    ensures
        !(run(stage, events).1[i] is LoadThumbnail),
    decreases events.len(),
{
    if events.len() > 0 {
        let (next, command) = transition(stage, events[0]);
        lemma_libraries_only_at_start(stage, events[0]);
        if i > 0 {
            lemma_thumbnail_only_after_libraries(next, events.drop_first(), i - 1);
        }
    }
}

/// A request asks libvips for at most one thumbnail, and only for a square
/// no larger than `MAX_THUMBNAIL_EDGE`: the edge the shell asked for, capped,
/// shrinking only, with the nearest-pixel kernel and automatic rotation.
pub proof fn law_one_capped_thumbnail(cx: u32, events: Seq<Event>, i: int, j: int)
    requires
        0 <= i < run(start(false, cx).0, events).1.len(),
        0 <= j < run(start(false, cx).0, events).1.len(),
        run(start(false, cx).0, events).1[i] is LoadThumbnail,
        run(start(false, cx).0, events).1[j] is LoadThumbnail,
    ensures
        i == j,
        run(start(false, cx).0, events).1[i] == (Command::LoadThumbnail {
            width: thumbnail_edge(cx) as i32,
            height: thumbnail_edge(cx) as i32,
            size: SIZE_DOWN,
            kernel: KERNEL_NEAREST,
            auto_rotate: 1,
        }),
        thumbnail_edge(cx) <= MAX_THUMBNAIL_EDGE,
        cx <= MAX_THUMBNAIL_EDGE ==> thumbnail_edge(cx) == cx,
{
    let first = start(false, cx).0;
    let (next, command) = transition(first, events[0]);
    lemma_libraries_only_at_start(first, events[0]);
    if i > 0 {
        lemma_thumbnail_only_after_libraries(next, events.drop_first(), i - 1);
    }
    if j > 0 {
        lemma_thumbnail_only_after_libraries(next, events.drop_first(), j - 1);
    }
}

/// An image is converted exactly when its interpretation is not sRGB (22);
/// an sRGB image goes on, itself, to the band count.
pub proof fn law_converts_exactly_non_srgb(image: u64, interpretation: i32)
    ensures
        (transition(
            Stage::AwaitInterpretation { image },
            Event::Interpretation { interpretation },
        ).1 is QueryBands) <==> interpretation == 22,
        interpretation == 22 ==> transition(
            Stage::AwaitInterpretation { image },
            Event::Interpretation { interpretation },
        ) == (Stage::AwaitBands { image }, Command::QueryBands { image }),
        interpretation != 22 ==> transition(
            Stage::AwaitInterpretation { image },
            Event::Interpretation { interpretation },
        ) == (Stage::AwaitColourspace { source: image }, Command::ConvertColourspace {
            image,
            space: 22,
        }),
{
}

/// Every colour conversion the pipeline asks for targets sRGB (22), and
/// converts the image that the request holds.
pub proof fn law_conversions_target_srgb(stage: Stage, event: Event)
    requires
        expects(stage, event),
    ensures
        transition(stage, event).1 matches Command::ConvertColourspace { image, space } ==> space
            == 22 && held(stage).count(image) > 0,
{
}

/// Alpha is added exactly when the image does not have four bands; a
/// four-band image goes on, itself, to its geometry.
pub proof fn law_adds_alpha_exactly_without_four_bands(image: u64, bands: i32)
    ensures
        (transition(Stage::AwaitBands { image }, Event::Bands { bands }).1 is QueryGeometry)
            <==> bands == 4,
        bands == 4 ==> transition(Stage::AwaitBands { image }, Event::Bands { bands }) == (
            Stage::AwaitGeometry { image },
            Command::QueryGeometry { image },
        ),
        bands != 4 ==> transition(Stage::AwaitBands { image }, Event::Bands { bands }) == (
            Stage::AwaitAlpha { source: image },
            Command::AddAlpha { image },
        ),
{
}

/// The bitmap is made at the size libvips reports, from four bytes per pixel
/// (none where a side is not positive); only pixel data too large to address
/// is refused, after releasing the image.
pub proof fn law_bitmap_size(image: u64, width: i32, height: i32)
    ensures
        0 < width && 0 < height && width * height * 4 <= usize::MAX ==> transition(
            Stage::AwaitGeometry { image },
            Event::Geometry { width, height },
        ) == (Stage::AwaitBitmap { image }, Command::CreateBitmap {
            image,
            width,
            height,
            planes: 1,
            bit_count: 32,
            byte_len: (width * height * 4) as usize,
        }),
        width <= 0 || height <= 0 ==> transition(
            Stage::AwaitGeometry { image },
            Event::Geometry { width, height },
        ) == (Stage::AwaitBitmap { image }, Command::CreateBitmap {
            image,
            width,
            height,
            planes: 1,
            bit_count: 32,
            byte_len: 0,
        }),
        0 < width && 0 < height && width * height * 4 > usize::MAX ==> transition(
            Stage::AwaitGeometry { image },
            Event::Geometry { width, height },
        ) == (Stage::ReleaseBeforeFailure, Command::Release { image }),
{
}

/// The thumbnail is asked for at the shell's edge capped at 96, shrinking
/// only (`VIPS_SIZE_DOWN`, 2), with the nearest-pixel kernel (0) and
/// automatic rotation, once the libraries are loaded; without them the
/// request fails.
pub proof fn law_thumbnail_request(cx: u32, loaded: bool)
    ensures
        loaded ==> transition(start(false, cx).0, Event::LibrariesLoaded { loaded }) == (
            Stage::AwaitThumbnail,
            Command::LoadThumbnail {
                width: (if cx < 96 { cx } else { 96u32 }) as i32,
                height: (if cx < 96 { cx } else { 96u32 }) as i32,
                size: 2,
                kernel: 0,
                auto_rotate: 1,
            },
        ),
        !loaded ==> transition(start(false, cx).0, Event::LibrariesLoaded { loaded }) == (
            Stage::Failed,
            Command::Fail { hresult: -1i32 },
        ),
        start(false, cx).1 == Command::LoadLibraries,
        start(true, cx) == (Stage::Failed, Command::Fail { hresult: -1i32 }),
{
}

/// libvips reports a failed thumbnail load, colour conversion or alpha.
pub open spec fn reports_failed_call(event: Event) -> bool {
    match event {
        Event::ThumbnailLoaded { status, .. } => status != 0,
        Event::ColourspaceConverted { status, .. } => status != 0,
        Event::AlphaAdded { status, .. } => status != 0,
        _ => false,
    }
}

/// A thumbnail, colour conversion or alpha that libvips reports as failed
/// (non-zero status) hands nothing over and ends the request, releasing what
/// it held; a zero status hands the new image on.
pub proof fn law_failed_calls_end_the_request(stage: Stage, event: Event)
    requires
        expects(stage, event),
        reports_failed_call(event),
    ensures
        acquired(stage, event) == Multiset::<u64>::empty(),
        transition(stage, event).0 is Failed || transition(stage, event).0 is ReleaseBeforeFailure,
{
}

/// A zero status from libvips hands the new image on: the loaded thumbnail
/// is examined next, and a converted image replaces its source, which is
/// released first.
pub proof fn law_zero_status_hands_on(source: u64, image: u64)
    ensures
        transition(Stage::AwaitThumbnail, Event::ThumbnailLoaded { status: 0, image }) == (
            Stage::AwaitInterpretation { image },
            Command::QueryInterpretation { image },
        ),
        transition(
            Stage::AwaitColourspace { source },
            Event::ColourspaceConverted { status: 0, image },
        ) == (Stage::ReleaseBeforeBands { image }, Command::Release { image: source }),
        transition(Stage::ReleaseBeforeBands { image }, Event::Released) == (
            Stage::AwaitBands { image },
            Command::QueryBands { image },
        ),
        transition(Stage::AwaitAlpha { source }, Event::AlphaAdded { status: 0, image }) == (
            Stage::ReleaseBeforeGeometry { image },
            Command::Release { image: source },
        ),
        transition(Stage::ReleaseBeforeGeometry { image }, Event::Released) == (
            Stage::AwaitGeometry { image },
            Command::QueryGeometry { image },
        ),
{
}

/// The bitmap handed to the shell is the one GDI created, as ARGB (2), and
/// only when it is valid; the image it was made from is released first.
pub proof fn law_bitmap_handover(image: u64, bitmap: u64, valid: bool)
    ensures
        transition(Stage::AwaitBitmap { image }, Event::BitmapCreated { bitmap, valid }) == (
            Stage::ReleaseBeforeFinish { bitmap, valid },
            Command::Release { image },
        ),
        valid ==> transition(Stage::ReleaseBeforeFinish { bitmap, valid }, Event::Released) == (
            Stage::Succeeded,
            Command::Finish { bitmap, alpha: 2 },
        ),
        !valid ==> transition(Stage::ReleaseBeforeFinish { bitmap, valid }, Event::Released) == (
            Stage::Failed,
            Command::Fail { hresult: -1i32 },
        ),
        transition(Stage::ReleaseBeforeFailure, Event::Released) == (
            Stage::Failed,
            Command::Fail { hresult: -1i32 },
        ),
{
}

} // verus!
