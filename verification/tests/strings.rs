use thumbnail_generator::class_object::{class_object_reply, ClassObjectReply, PROVIDER_CLSID};
use thumbnail_generator::debug_log::debug_message;
use thumbnail_generator::hresult::{invalid_unicode_hresult, CLASS_E_CLASSNOTAVAILABLE};
use thumbnail_generator::pipeline::{Command, Stage};
use thumbnail_generator::provider::ThumbnailProvider;
use thumbnail_generator::samples::pick_samples;
use thumbnail_generator::source_path::hinted_source_path;
use thumbnail_generator::wide::{encode_wide, encode_wide_nul};

#[test]
fn encodes_utf16_with_surrogates() {
    assert_eq!(encode_wide("A\u{20AC}\u{1F600}"), vec![0x41, 0x20AC, 0xD83D, 0xDE00]);
    assert_eq!(encode_wide(""), Vec::<u16>::new());
    assert_eq!(encode_wide_nul("C:\\vips\\bin"), {
        let mut v: Vec<u16> = "C:\\vips\\bin".encode_utf16().collect();
        v.push(0);
        v
    });
}

#[test]
fn hinted_source_uses_forward_slashes() {
    assert_eq!(
        hinted_source_path("C:\\photos\\cat.avif"),
        "C:/photos/cat.avif[thumbnail=true,n=1,access=sequential]"
    );
    assert_eq!(hinted_source_path(""), "[thumbnail=true,n=1,access=sequential]");
}

#[test]
fn provider_reads_back_its_path() {
    let mut p = ThumbnailProvider::new();
    let path = "D:\\Bilder\\\u{00E9}t\u{00E9}\u{1F600}.heic";
    let wide: Vec<u16> = path.encode_utf16().collect();
    assert_eq!(p.initialize(&wide), Ok(()));
    assert_eq!(p.thumbnail_source(), "D:/Bilder/\u{00E9}t\u{00E9}\u{1F600}.heic[thumbnail=true,n=1,access=sequential]");
    assert_eq!(p.begin_thumbnail(300), (Stage::AwaitLibraries { edge: 96 }, Command::LoadLibraries));
}

#[test]
fn provider_refuses_unpaired_surrogate_and_keeps_its_path() {
    let mut p = ThumbnailProvider::new();
    let good: Vec<u16> = "a.png".encode_utf16().collect();
    assert_eq!(p.initialize(&good), Ok(()));
    assert_eq!(p.initialize(&[0x61, 0xD800, 0x62]), Err(-2147023783));
    assert_eq!(p.initialize(&[0xDC00]), Err(-2147023783));
    assert_eq!(p.thumbnail_source(), "a.png[thumbnail=true,n=1,access=sequential]");
    assert_eq!(invalid_unicode_hresult(), -2147023783);
}

#[test]
fn fresh_provider_fails_thumbnails() {
    let p = ThumbnailProvider::new();
    assert_eq!(p.begin_thumbnail(96), (Stage::Failed, Command::Fail { hresult: -1 }));
}

#[test]
fn class_object_only_for_provider_clsid() {
    assert_eq!(PROVIDER_CLSID, 0xD3A2F1B2_7E8B_4C9D_A3D1_2F0B3C4D5E6F);
    assert_eq!(class_object_reply(PROVIDER_CLSID), ClassObjectReply::ProvideFactory);
    assert_eq!(
        class_object_reply(0x00000001_0000_0000_C000_000000000046),
        ClassObjectReply::Refuse { hresult: -2147221231 }
    );
    assert_eq!(CLASS_E_CLASSNOTAVAILABLE, -2147221231);
}

#[test]
fn debug_message_is_prefixed_and_terminated() {
    let mut expected: Vec<u16> = "VipsThumb: hello".encode_utf16().collect();
    expected.push(0);
    assert_eq!(debug_message("hello"), expected);
}

#[test]
fn picks_first_ten_avif_files() {
    let mut exts: Vec<Option<String>> = Vec::new();
    for i in 0..30 {
        exts.push(match i % 3 {
            0 => Some("avif".to_string()),
            1 => Some("png".to_string()),
            _ => None,
        });
    }
    exts[3] = Some("AVIF".to_string());
    assert_eq!(pick_samples(&exts), vec![0, 6, 9, 12, 15, 18, 21, 24, 27]);
    exts.push(Some("avif".to_string()));
    exts.push(Some("avif".to_string()));
    assert_eq!(pick_samples(&exts), vec![0, 6, 9, 12, 15, 18, 21, 24, 27, 30]);
    assert_eq!(pick_samples(&Vec::new()), Vec::<usize>::new());
}
