use std::convert::Infallible;

use body_util::{Body, Either, Frame, Full, PollFrame, ScriptBody};

#[test]
fn data_left() {
    let full = Full::<Infallible>::new(b"hello".to_vec());

    let mut value: Either<Full<Infallible>, ScriptBody<Infallible>> = Either::Left(full);

    assert_eq!(value.size_hint().exact(), Some(b"hello".len() as u64));
    let frame = match value.poll_frame() {
        PollFrame::Frame(frame) => frame,
        other => panic!("expected a frame, got {:?}", other),
    };
    assert_eq!(frame.into_data().unwrap(), b"hello".to_vec());
    assert!(matches!(value.poll_frame(), PollFrame::End));
}

#[test]
fn data_right() {
    let full = Full::<Infallible>::new(b"hello!".to_vec());

    let mut value: Either<ScriptBody<Infallible>, Full<Infallible>> = Either::Right(full);

    assert_eq!(value.size_hint().exact(), Some(b"hello!".len() as u64));
    let frame = match value.poll_frame() {
        PollFrame::Frame(frame) => frame,
        other => panic!("expected a frame, got {:?}", other),
    };
    assert_eq!(frame.into_data().unwrap(), b"hello!".to_vec());
    assert!(matches!(value.poll_frame(), PollFrame::End));
}

#[test]
fn into_inner() {
    let a = Either::<i32, i32>::Left(2);
    assert_eq!(a.into_inner(), 2)
}
