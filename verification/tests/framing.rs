use amp_mate::controller::framing::FrameBuffer;
use amp_mate::controller::protocol::constants::FRAME_TERMINATOR;

#[test]
fn terminator_is_the_dollar_sign() {
    assert_eq!(FRAME_TERMINATOR, b'$');
}

#[test]
fn cuts_frames_at_terminators() {
    let mut buffer = FrameBuffer::new();
    let frames = buffer.push(b"power=on$volume=12$");
    assert_eq!(frames, vec![b"power=on".to_vec(), b"volume=12".to_vec()]);
    assert_eq!(buffer.push(b"mute=off$"), vec![b"mute=off".to_vec()]);
}

#[test]
fn keeps_an_unfinished_frame_for_the_next_read() {
    let mut buffer = FrameBuffer::new();
    assert_eq!(buffer.push(b"power=on$vol"), vec![b"power=on".to_vec()]);
    assert_eq!(buffer.push(b"ume="), Vec::<Vec<u8>>::new());
    assert_eq!(buffer.push(b"12$mu"), vec![b"volume=12".to_vec()]);
    assert_eq!(buffer.push(b"te=on$"), vec![b"mute=on".to_vec()]);
    assert_eq!(buffer.push(b""), Vec::<Vec<u8>>::new());
}

#[test]
fn an_empty_frame_is_a_frame() {
    let mut buffer = FrameBuffer::new();
    assert_eq!(buffer.push(b"$$a$"), vec![Vec::new(), Vec::new(), b"a".to_vec()]);
}

#[test]
fn frames_do_not_depend_on_how_the_stream_is_cut() {
    let stream = b"power=on$volume=12$mute=off$source=cd$x";
    let mut whole = FrameBuffer::new();
    let expected = whole.push(stream);
    assert_eq!(expected.len(), 4);
    for cut in 0..=stream.len() {
        let mut buffer = FrameBuffer::new();
        let mut frames = buffer.push(&stream[..cut]);
        frames.extend(buffer.push(&stream[cut..]));
        assert_eq!(frames, expected);
        assert_eq!(buffer.push(b"$"), vec![b"x".to_vec()]);
    }
    let mut bytewise = FrameBuffer::new();
    let mut frames = Vec::new();
    for b in stream.iter() {
        frames.extend(bytewise.push(&[*b]));
    }
    assert_eq!(frames, expected);
}

#[test]
fn no_frame_holds_a_terminator() {
    let mut buffer = FrameBuffer::new();
    let frames = buffer.push(b"a$$b=c$\xff$d");
    assert_eq!(frames.len(), 4);
    assert!(frames.iter().all(|frame| !frame.contains(&FRAME_TERMINATOR)));
}
