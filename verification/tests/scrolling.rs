use vfd_marquee::scroll::ScrollRenderer;

#[test]
fn long_text_scrolls_cyclically() {
    let mut r = ScrollRenderer::new("abcdefghijklmn");
    assert_eq!(r.next_frame(), "abcdefghijkl");
    assert_eq!(r.next_frame(), "bcdefghijklm");
    assert_eq!(r.next_frame(), "cdefghijklmn");
    assert_eq!(r.next_frame(), "defghijklmna");
}

#[test]
fn frame_sequence_has_period_of_text_length() {
    let text = "abcdefghijklmn";
    let mut r = ScrollRenderer::new(text);
    let mut first_cycle = Vec::new();
    for _ in 0..text.len() {
        first_cycle.push(r.next_frame());
    }
    for frame in &first_cycle {
        assert_eq!(&r.next_frame(), frame);
    }
}

#[test]
fn new_renderer_restarts_at_the_same_first_frame() {
    let mut a = ScrollRenderer::new("scrolling text!");
    let first = a.next_frame();
    a.next_frame();
    a.next_frame();
    let mut b = ScrollRenderer::new("scrolling text!");
    assert_eq!(b.next_frame(), first);
}

#[test]
fn text_fitting_the_display_stays_still() {
    let mut r = ScrollRenderer::new("exactly12ch.");
    assert_eq!(r.next_frame(), "exactly12ch.");
    assert_eq!(r.next_frame(), "exactly12ch.");
    assert_eq!(r.next_frame(), "exactly12ch.");
}

#[test]
fn short_text_is_repeated_to_fill_the_frame() {
    let mut r = ScrollRenderer::new("abc");
    assert_eq!(r.next_frame(), "abcabcabcabc");
    assert_eq!(r.next_frame(), "abcabcabcabc");
}

#[test]
fn empty_text_gives_an_empty_frame() {
    let mut r = ScrollRenderer::new("");
    assert_eq!(r.next_frame(), "");
    assert_eq!(r.next_frame(), "");
}
