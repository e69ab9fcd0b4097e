use render_core::present::{choose_present_mode, mode_supported, PresentMode};

#[test]
fn vsync_prefers_mailbox() {
    let supported = vec![PresentMode::Fifo, PresentMode::Mailbox, PresentMode::Immediate];
    assert_eq!(choose_present_mode(true, &supported), PresentMode::Mailbox);
}

#[test]
fn vsync_falls_back_to_fifo() {
    let supported = vec![PresentMode::Immediate, PresentMode::FifoRelaxed, PresentMode::Fifo];
    assert_eq!(choose_present_mode(true, &supported), PresentMode::Fifo);
}

#[test]
fn no_vsync_prefers_immediate() {
    let supported = vec![PresentMode::Mailbox, PresentMode::Immediate, PresentMode::Fifo];
    assert_eq!(choose_present_mode(false, &supported), PresentMode::Immediate);
}

#[test]
fn no_vsync_falls_back_to_relaxed_fifo() {
    let supported = vec![PresentMode::Mailbox, PresentMode::FifoRelaxed, PresentMode::Fifo];
    assert_eq!(choose_present_mode(false, &supported), PresentMode::FifoRelaxed);
}

#[test]
fn no_vsync_falls_back_to_plain_fifo() {
    let supported = vec![PresentMode::Mailbox, PresentMode::Fifo];
    assert_eq!(choose_present_mode(false, &supported), PresentMode::Fifo);
}

#[test]
fn nothing_supported_still_yields_fifo() {
    let supported: Vec<PresentMode> = Vec::new();
    assert_eq!(choose_present_mode(true, &supported), PresentMode::Fifo);
    assert_eq!(choose_present_mode(false, &supported), PresentMode::Fifo);
}

#[test]
fn mode_supported_reports_membership() {
    let supported = vec![PresentMode::Fifo, PresentMode::Mailbox];
    assert!(mode_supported(&supported, PresentMode::Mailbox));
    assert!(mode_supported(&supported, PresentMode::Fifo));
    assert!(!mode_supported(&supported, PresentMode::Immediate));
}
