use escpos_lib::{EscPosCmd, FmtStr, PrintFlag, PrintMode, TextAttribute, UnderlineMode};

const ESC: u8 = 0x1b;
const GS: u8 = 0x1d;

fn marker(cmd: EscPosCmd) -> Vec<u8> {
    cmd.encode().expect("a marker has an encoding")
}

fn concat(parts: &[&[u8]]) -> Vec<u8> {
    let mut all = Vec::new();
    for part in parts {
        all.extend_from_slice(part);
    }
    all
}

#[test]
fn plain_text_renders_to_itself() {
    assert_eq!(FmtStr::new("plain").render(), b"plain".to_vec());
    assert_eq!(FmtStr::new("").render(), Vec::<u8>::new());
    assert_eq!(FmtStr::new("Ünïcode").render(), "Ünïcode".as_bytes().to_vec());
    assert_eq!(FmtStr::new("plain").depth(), 0);
    assert_eq!(FmtStr::new("plain").text(), "plain");
}

#[test]
fn rendering_keeps_the_text_as_it_is() {
    assert_eq!(FmtStr::new("\u{1b}@").render(), vec![ESC, b'@']);
}

#[test]
fn height_then_emphasis_nests() {
    let rendered = FmtStr::new("X").enlarge_height().emphasize().render();
    assert_eq!(
        rendered,
        vec![ESC, b'!', 0x10, ESC, b'E', b'1', b'X', ESC, b'E', b'0', ESC, b'!', 0x00]
    );
    let tall = PrintMode::empty().with(PrintFlag::DoubleHeight);
    assert_eq!(
        rendered,
        concat(&[
            &marker(EscPosCmd::SelectPrintMode(tall)),
            &marker(EscPosCmd::SelectEmphasized(true)),
            b"X",
            &marker(EscPosCmd::SelectEmphasized(false)),
            &marker(EscPosCmd::SelectPrintMode(PrintMode::empty())),
        ])
    );
}

#[test]
fn emphasis_then_height_nests_the_other_way() {
    assert_eq!(
        FmtStr::new("X").emphasize().enlarge_height().render(),
        vec![ESC, b'E', b'1', ESC, b'!', 0x10, b'X', ESC, b'!', 0x00, ESC, b'E', b'0']
    );
}

#[test]
fn each_attribute_has_its_own_pair() {
    assert_eq!(
        FmtStr::new("t").emphasize().render(),
        vec![ESC, b'E', b'1', b't', ESC, b'E', b'0']
    );
    assert_eq!(
        FmtStr::new("t").enlarge_height().render(),
        vec![ESC, b'!', 0x10, b't', ESC, b'!', 0x00]
    );
    assert_eq!(
        FmtStr::new("t").enlarge_width().render(),
        vec![ESC, b'!', 0x20, b't', ESC, b'!', 0x00]
    );
    assert_eq!(
        FmtStr::new("t").underline().render(),
        vec![ESC, b'-', b'1', b't', ESC, b'-', b'0']
    );
    assert_eq!(
        FmtStr::new("t").reverse_video().render(),
        vec![GS, b'B', b'1', b't', GS, b'B', b'0']
    );
    assert_eq!(
        FmtStr::new("t").shrink_font().render(),
        vec![ESC, b'!', 0x01, b't', ESC, b'!', 0x00]
    );
}

#[test]
fn print_mode_attributes_merge_their_flags() {
    assert_eq!(
        FmtStr::new("BIG").enlarge_height().enlarge_width().render(),
        vec![ESC, b'!', 0x10, ESC, b'!', 0x30, b'B', b'I', b'G', ESC, b'!', 0x10, ESC, b'!', 0x00]
    );
    assert_eq!(
        FmtStr::new("s").shrink_font().enlarge_width().enlarge_height().render(),
        vec![
            ESC, b'!', 0x01, ESC, b'!', 0x21, ESC, b'!', 0x31, b's', ESC, b'!', 0x21, ESC, b'!',
            0x01, ESC, b'!', 0x00
        ]
    );
}

#[test]
fn other_attributes_leave_the_print_mode_alone() {
    assert_eq!(
        FmtStr::new("m").enlarge_width().underline().emphasize().enlarge_height().render(),
        vec![
            ESC, b'!', 0x20, ESC, b'-', b'1', ESC, b'E', b'1', ESC, b'!', 0x30, b'm', ESC, b'!',
            0x20, ESC, b'E', b'0', ESC, b'-', b'0', ESC, b'!', 0x00
        ]
    );
}

#[test]
fn an_attribute_applied_twice_is_undone_twice() {
    assert_eq!(
        FmtStr::new("d").enlarge_height().enlarge_height().render(),
        vec![ESC, b'!', 0x10, ESC, b'!', 0x10, b'd', ESC, b'!', 0x10, ESC, b'!', 0x00]
    );
    assert_eq!(
        FmtStr::new("d").emphasize().emphasize().render(),
        vec![ESC, b'E', b'1', ESC, b'E', b'1', b'd', ESC, b'E', b'0', ESC, b'E', b'0']
    );
}

#[test]
fn every_marker_count_renders_last_in_first_out() {
    let attributes = TextAttribute::all();
    assert_eq!(attributes.len(), 6);
    let text = "stack";
    for count in 0..=attributes.len() {
        let mut span = FmtStr::new(text);
        let mut active = PrintMode::empty();
        let mut enables: Vec<Vec<u8>> = Vec::new();
        let mut disables: Vec<Vec<u8>> = Vec::new();
        for attribute in &attributes[..count] {
            enables.push(marker(attribute.enable(active)));
            disables.push(marker(attribute.disable(active)));
            active = attribute.mode_inside(active);
            span = span.with(*attribute);
        }
        assert_eq!(span.depth(), count);
        let rendered = span.render();
        assert_eq!(rendered.len(), 3 * count + text.len() + 3 * count);
        for index in 0..count {
            assert_eq!(&rendered[3 * index..3 * index + 3], &enables[index][..]);
            let end = rendered.len() - 3 * index;
            assert_eq!(&rendered[end - 3..end], &disables[index][..]);
        }
        assert_eq!(&rendered[3 * count..3 * count + text.len()], text.as_bytes());
    }
}

#[test]
fn all_six_attributes_stacked() {
    let span = FmtStr::new("6")
        .emphasize()
        .enlarge_height()
        .enlarge_width()
        .underline()
        .reverse_video()
        .shrink_font();
    assert_eq!(
        span.render(),
        vec![
            ESC, b'E', b'1', ESC, b'!', 0x10, ESC, b'!', 0x30, ESC, b'-', b'1', GS, b'B', b'1',
            ESC, b'!', 0x31, b'6', ESC, b'!', 0x30, GS, b'B', b'0', ESC, b'-', b'0', ESC, b'!',
            0x10, ESC, b'!', 0x00, ESC, b'E', b'0'
        ]
    );
}

#[test]
fn with_is_what_the_named_builders_do() {
    assert_eq!(FmtStr::new("a").with(TextAttribute::Emphasize), FmtStr::new("a").emphasize());
    assert_eq!(
        FmtStr::new("a").with(TextAttribute::EnlargeHeight),
        FmtStr::new("a").enlarge_height()
    );
    assert_eq!(
        FmtStr::new("a").with(TextAttribute::EnlargeWidth),
        FmtStr::new("a").enlarge_width()
    );
    assert_eq!(FmtStr::new("a").with(TextAttribute::Underline), FmtStr::new("a").underline());
    assert_eq!(
        FmtStr::new("a").with(TextAttribute::ReverseVideo),
        FmtStr::new("a").reverse_video()
    );
    assert_eq!(FmtStr::new("a").with(TextAttribute::ShrinkFont), FmtStr::new("a").shrink_font());
}

#[test]
fn applying_an_attribute_wraps_the_innermost_body() {
    let outer = FmtStr::new("ignored").underline().enlarge_width();
    let inner_body = concat(&[&[ESC, b'!', 0x30], b"body", &[ESC, b'!', 0x20]]);
    let nested = outer.render_around(inner_body);
    let longer = FmtStr::new("body").underline().enlarge_width().enlarge_height();
    assert_eq!(longer.render(), nested);
}

#[test]
fn render_around_takes_any_body() {
    let span = FmtStr::new("text").reverse_video();
    assert_eq!(
        span.render_around(vec![0xff, 0x00]),
        vec![GS, b'B', b'1', 0xff, 0x00, GS, b'B', b'0']
    );
    assert_eq!(FmtStr::new("text").render_around(vec![1, 2, 3]), vec![1, 2, 3]);
}

#[test]
fn enable_and_disable_commands() {
    let wide = PrintMode::empty().with(PrintFlag::DoubleWidth);
    assert_eq!(
        TextAttribute::EnlargeHeight.enable(wide),
        EscPosCmd::SelectPrintMode(wide.with(PrintFlag::DoubleHeight))
    );
    assert_eq!(TextAttribute::EnlargeHeight.disable(wide), EscPosCmd::SelectPrintMode(wide));
    assert_eq!(
        TextAttribute::Underline.enable(wide),
        EscPosCmd::SelectUnderlineMode(UnderlineMode::OneDot)
    );
    assert_eq!(
        TextAttribute::Underline.disable(wide),
        EscPosCmd::SelectUnderlineMode(UnderlineMode::Off)
    );
    assert_eq!(TextAttribute::Emphasize.enable(wide), EscPosCmd::SelectEmphasized(true));
    assert_eq!(TextAttribute::ReverseVideo.disable(wide), EscPosCmd::SelectReversePrinting(false));
    assert_eq!(TextAttribute::ShrinkFont.mode_flag(), Some(PrintFlag::FontB));
    assert_eq!(TextAttribute::Emphasize.mode_flag(), None);
    assert_eq!(TextAttribute::Emphasize.mode_inside(wide), wide);
    assert_eq!(TextAttribute::ShrinkFont.mode_inside(wide).to_byte(), 0x21);
}
