use std::convert::Infallible;

use body_util::{Body, Frame, Full, LengthLimitError, Limited, LimitedError, PollFrame, ScriptBody,
    SizeHint};

fn expect_data<E: std::fmt::Debug>(poll: PollFrame<E>) -> Vec<u8> {
    match poll {
        PollFrame::Frame(frame) => frame.into_data().unwrap(),
        other => panic!("expected a data frame, got {:?}", other),
    }
}

fn expect_error<E: std::fmt::Debug>(poll: PollFrame<E>) -> E {
    match poll {
        PollFrame::Fail(err) => err,
        other => panic!("expected an error, got {:?}", other),
    }
}

fn body_from_iter<I>(into_iter: I) -> ScriptBody<Infallible>
where
    I: IntoIterator,
    I::Item: Into<Vec<u8>>,
{
    let mut script = Vec::new();
    for chunk in into_iter {
        script.push(PollFrame::Frame(Frame::Data(chunk.into())));
    }
    ScriptBody::new(script)
}

#[test]
fn read_for_body_under_limit_returns_data() {
    let data_in: &[u8] = b"testing";
    let inner = Full::<Infallible>::new(data_in.to_vec());
    let body = &mut Limited::new(inner, 8);

    let mut hint = SizeHint::new();
    hint.set_upper(7);
    assert_eq!(body.size_hint().upper(), hint.upper());

    let data = expect_data(body.poll_frame());
    assert_eq!(data, data_in.to_vec());
    hint.set_upper(0);
    assert_eq!(body.size_hint().upper(), hint.upper());

    assert!(matches!(body.poll_frame(), PollFrame::End));
}

#[test]
fn read_for_body_over_limit_returns_error() {
    let data_in: &[u8] = b"testing a string that is too long";
    let inner = Full::<Infallible>::new(data_in.to_vec());
    let body = &mut Limited::new(inner, 8);

    let mut hint = SizeHint::new();
    hint.set_upper(8);
    assert_eq!(body.size_hint().upper(), hint.upper());

    let error = expect_error(body.poll_frame());
    assert!(matches!(error, LimitedError::Limit(LengthLimitError)));
}

#[test]
fn read_for_chunked_body_around_limit_returns_first_chunk_but_returns_error_on_over_limit_chunk() {
    let data_in: [&[u8]; 2] = [b"testing ", b"a string that is too long"];
    let inner = body_from_iter(data_in);
    let body = &mut Limited::new(inner, 8);

    let mut hint = SizeHint::new();
    hint.set_upper(8);
    assert_eq!(body.size_hint().upper(), hint.upper());

    let data = expect_data(body.poll_frame());
    assert_eq!(data, data_in[0].to_vec());
    hint.set_upper(0);
    assert_eq!(body.size_hint().upper(), hint.upper());

    let error = expect_error(body.poll_frame());
    assert!(matches!(error, LimitedError::Limit(LengthLimitError)));
}

#[test]
fn read_for_chunked_body_over_limit_on_first_chunk_returns_error() {
    let data_in: [&[u8]; 2] = [b"testing a string", b" that is too long"];
    let inner = body_from_iter(data_in);
    let body = &mut Limited::new(inner, 8);

    let mut hint = SizeHint::new();
    hint.set_upper(8);
    assert_eq!(body.size_hint().upper(), hint.upper());

    let error = expect_error(body.poll_frame());
    assert!(matches!(error, LimitedError::Limit(LengthLimitError)));
}

#[test]
fn read_for_chunked_body_under_limit_is_okay() {
    let data_in: [&[u8]; 2] = [b"test", b"ing!"];
    let inner = body_from_iter(data_in);
    let body = &mut Limited::new(inner, 8);

    let mut hint = SizeHint::new();
    hint.set_upper(8);
    assert_eq!(body.size_hint().upper(), hint.upper());

    let data = expect_data(body.poll_frame());
    assert_eq!(data, data_in[0].to_vec());
    hint.set_upper(4);
    assert_eq!(body.size_hint().upper(), hint.upper());

    let data = expect_data(body.poll_frame());
    assert_eq!(data, data_in[1].to_vec());
    hint.set_upper(0);
    assert_eq!(body.size_hint().upper(), hint.upper());

    assert!(matches!(body.poll_frame(), PollFrame::End));
}

#[test]
fn read_for_trailers_propagates_inner_trailers() {
    let some_trailers = ScriptBody::<Infallible>::new(vec![PollFrame::Frame(Frame::Trailers(
        Vec::new(),
    ))]);
    let body = &mut Limited::new(some_trailers, 8);
    let frame = match body.poll_frame() {
        PollFrame::Frame(frame) => frame,
        other => panic!("expected a frame, got {:?}", other),
    };
    assert!(frame.is_trailers());
}

#[derive(Debug)]
struct ErrorBodyError;

#[test]
fn read_for_body_returning_error_propagates_error() {
    let error_body = ScriptBody::new(vec![PollFrame::Fail(ErrorBodyError)]);
    let body = &mut Limited::new(error_body, 8);
    let error = expect_error(body.poll_frame());
    assert!(matches!(error, LimitedError::Inner(ErrorBodyError)));
}
