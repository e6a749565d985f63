use spotix::audio::meter::{plan_analysis, sample_index, AnalysisPlan, MeteredSource, PcmMeter, BAND_COUNT};
use spotix::qt::art::{
    ascii_art_error, ascii_art_loading, ascii_art_placeholder, colored_album_art_to_ascii, extract_artem_pre,
    render_colored_art, tiny_album_art_to_ascii,
};

#[test]
fn render_two_pixels() {
    let px = vec![255u8, 255, 255, 0, 0, 0];
    let html = render_colored_art(&px, 2, 1);
    assert_eq!(
        html,
        "<pre style=\"margin:0\"><span style=\"color:#ffffff\">&nbsp;</span><span style=\"color:#000000\">@</span></pre>"
    );
}

#[test]
fn render_rows_are_separated() {
    let px = vec![0x12u8, 0x34, 0x56, 128, 128, 128];
    let html = render_colored_art(&px, 1, 2);
    assert_eq!(
        html,
        "<pre style=\"margin:0\"><span style=\"color:#123456\">#</span><br/><span style=\"color:#808080\">=</span></pre>"
    );
}

#[test]
fn decoded_images_render_at_the_asked_size() {
    let img = image::RgbImage::from_pixel(4, 4, image::Rgb([10, 200, 30]));
    let mut bytes: Vec<u8> = Vec::new();
    image::DynamicImage::ImageRgb8(img)
        .write_to(&mut std::io::Cursor::new(&mut bytes), image::ImageFormat::Png)
        .unwrap();
    let html = tiny_album_art_to_ascii(&bytes).unwrap();
    assert_eq!(html.matches("<span").count(), 18);
    assert_eq!(html.matches("<br/>").count(), 2);
    assert!(html.contains("color:#0ac81e"));
    let html = colored_album_art_to_ascii(&bytes, 3, 1).unwrap();
    assert_eq!(html.matches("<span").count(), 3);
    assert!(colored_album_art_to_ascii(b"not an image", 6, 3).is_err());
}

#[test]
fn artem_pre_is_extracted() {
    assert_eq!(extract_artem_pre("<html><pre>abc</pre></html>"), "<pre>abc</pre>");
    assert_eq!(extract_artem_pre("x<pre>a<pre>b</pre>"), "<pre>a</pre>");
    assert_eq!(extract_artem_pre("plain"), "<pre>plain</pre>");
    assert_eq!(extract_artem_pre("<pre>open"), "<pre>open</pre>");
}

#[test]
fn error_art_pads_and_cuts_the_message() {
    let short = ascii_art_error("oops");
    assert!(short.contains("# oops                         #"));
    let long = ascii_art_error("0123456789012345678901234567890123456789");
    assert!(long.contains("# 0123456789012345678901234567 #"));
    assert!(short.starts_with("<pre style=\"color:#ffd75f\">"));
    assert!(short.ends_with("</pre>"));
    assert!(ascii_art_placeholder().contains("SPOTIX"));
    assert!(ascii_art_loading().contains("loading art"));
}

#[test]
fn analysis_plans() {
    assert_eq!(plan_analysis(100, 0, 44100), AnalysisPlan::Clear);
    assert_eq!(plan_analysis(100, 2, 0), AnalysisPlan::Clear);
    assert_eq!(plan_analysis(14, 2, 44100), AnalysisPlan::Skip);
    assert_eq!(plan_analysis(16, 2, 44100), AnalysisPlan::Analyze { frames: 8, frame_stride: 0 });
    assert_eq!(plan_analysis(5000, 2, 44100), AnalysisPlan::Analyze { frames: 2048, frame_stride: 452 });
    assert_eq!(sample_index(5000, 2, 44100, 2048, 452, 2047, 1), 4999);
}

#[test]
fn meter_levels_store_and_clear() {
    let mut meter = PcmMeter::new();
    assert_eq!(meter.levels_milli_vec(), vec![0; BAND_COUNT]);
    meter.store_band(3, 750);
    assert_eq!(meter.band(3), 750);
    meter.clear();
    assert_eq!(meter.levels_milli_vec(), vec![0; BAND_COUNT]);
    meter.store_band(3, 750);
    let shared = std::sync::Arc::new(std::sync::Mutex::new(meter));
    let window_view = std::sync::Arc::clone(&shared);
    let mut source = MeteredSource::new(7u32, std::sync::Arc::clone(&shared));
    let (s, m) = source.parts_mut();
    *s = 8;
    m.lock().unwrap().store_band(0, 1);
    assert_eq!(window_view.lock().unwrap().band(0), 1);
    window_view.lock().unwrap().clear();
    assert_eq!(shared.lock().unwrap().band(3), 0);
}

#[test]
fn extracting_the_pre_block_twice_changes_nothing() {
    for page in ["<html><pre>abc</pre></html>", "x<pre>a<pre>b</pre>", "plain text", "<pre>only open"] {
        let once = extract_artem_pre(page);
        assert_eq!(extract_artem_pre(&once), once);
    }
    let once = extract_artem_pre("no open but </pre> close");
    assert_eq!(once, "<pre>no open but </pre> close</pre>");
    assert_eq!(extract_artem_pre(&once), "<pre>no open but </pre>");
}
