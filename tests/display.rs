use futures::channel::mpsc;
use marco::{dispatch_current, DisplayStatus, FrameController, ImageRecord, RenderAction, RenderLoop};

fn record(id: i32, name: &str) -> ImageRecord {
    ImageRecord {
        image_id: id,
        image_path: format!("/images/{}", name),
        thumb_path: format!("/thumbs/{}", name),
        date_added: 0,
        date_created: 0,
        favourite: false,
    }
}

#[test]
fn dispatch_sends_the_current_image_path() {
    let (mut tx, mut rx) = mpsc::channel::<String>(4);
    let shown = Some(record(1, "one.jpg"));
    assert_eq!(dispatch_current(&mut tx, &shown), DisplayStatus::Queued);
    assert_eq!(rx.try_next().unwrap(), Some("/images/one.jpg".to_string()));
}

#[test]
fn dispatch_with_nothing_sends_nothing() {
    let (mut tx, mut rx) = mpsc::channel::<String>(4);
    assert_eq!(dispatch_current(&mut tx, &None), DisplayStatus::NothingToShow);
    assert!(rx.try_next().is_err());
}

#[test]
fn full_channel_still_advances() {
    let mut c = FrameController::new(());
    c.reload(vec![record(1, "1.jpg"), record(2, "2.jpg"), record(3, "3.jpg")]);
    let (mut tx, mut rx) = mpsc::channel::<String>(0);
    let first = c.advance();
    assert_eq!(dispatch_current(&mut tx, &first), DisplayStatus::Queued);
    let second = c.advance();
    assert_eq!(second.as_ref().unwrap().image_id, 3);
    assert_eq!(dispatch_current(&mut tx, &second), DisplayStatus::Backlog);
    assert_eq!(c.current_index(), 2);
    assert_eq!(rx.try_next().unwrap(), Some("/images/2.jpg".to_string()));
}

#[test]
fn closed_channel_reports_renderer_gone() {
    let (mut tx, rx) = mpsc::channel::<String>(4);
    drop(rx);
    assert_eq!(dispatch_current(&mut tx, &Some(record(1, "1.jpg"))), DisplayStatus::RendererGone);
}

#[test]
fn tickets_count_up_from_one() {
    let mut r = RenderLoop::new();
    assert!(r.can_accept());
    assert_eq!(r.applied(), 0);
    assert_eq!(r.on_request(), 1);
    assert_eq!(r.on_request(), 2);
    assert_eq!(r.on_request(), 3);
}

#[test]
fn only_newer_frames_are_applied() {
    let mut r = RenderLoop::new();
    let a = r.on_request();
    let b = r.on_request();
    assert_eq!(r.on_decoded(b, true), RenderAction::Apply);
    assert_eq!(r.applied(), b);
    assert_eq!(r.on_decoded(a, true), RenderAction::Discard);
    assert_eq!(r.applied(), b);
}

#[test]
fn failed_decode_is_reported_and_shows_nothing_new() {
    let mut r = RenderLoop::new();
    let a = r.on_request();
    assert_eq!(r.on_decoded(a, false), RenderAction::ReportFailure);
    assert_eq!(r.applied(), 0);
    let b = r.on_request();
    assert_eq!(r.on_decoded(b, true), RenderAction::Apply);
    assert_eq!(r.on_decoded(a, false), RenderAction::Discard);
}

#[test]
fn unknown_ticket_is_discarded() {
    let mut r = RenderLoop::new();
    r.on_request();
    assert_eq!(r.on_decoded(5, true), RenderAction::Discard);
    assert_eq!(r.on_decoded(0, true), RenderAction::Discard);
    assert_eq!(r.applied(), 0);
}

#[test]
fn display_request_is_the_image_path() {
    assert_eq!(marco::display_request(&Some(record(4, "four.jpg"))), Some("/images/four.jpg".to_string()));
    assert_eq!(marco::display_request(&None), None);
}
