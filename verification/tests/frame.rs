use aoede::channel::FrameChannel;
use aoede::frame::{AudioFrame, FRAME_BYTES};

fn frame_of(left: f32, right: f32) -> AudioFrame {
    AudioFrame { left: left.to_bits(), right: right.to_bits() }
}

#[test]
fn frame_is_stored_as_two_little_endian_words() {
    let frame = AudioFrame { left: 0x0403_0201, right: 0x0807_0605 };
    let mut buff = [0xffu8; 12];
    frame.store(&mut buff, 2);
    assert_eq!(buff, [0xff, 0xff, 1, 2, 3, 4, 5, 6, 7, 8, 0xff, 0xff]);
}

#[test]
fn stored_frame_reads_back_as_the_same_numbers() {
    let frame = frame_of(0.5, -1.25);
    let mut buff = [0u8; FRAME_BYTES];
    frame.store(&mut buff, 0);
    let left = f32::from_le_bytes([buff[0], buff[1], buff[2], buff[3]]);
    let right = f32::from_le_bytes([buff[4], buff[5], buff[6], buff[7]]);
    assert_eq!(left, 0.5);
    assert_eq!(right, -1.25);
    assert_eq!(buff, [0, 0, 0, 0x3f, 0, 0, 0xa0, 0xbf]);
}

#[test]
fn channel_hands_frames_out_in_the_order_of_arrival() {
    let mut channel = FrameChannel::new(3);
    assert!(channel.is_empty());
    assert_eq!(channel.bound(), 3);
    for i in 0..3u32 {
        assert_eq!(channel.try_send(AudioFrame { left: i, right: 10 + i }), Ok(()));
    }
    assert!(channel.is_full());
    assert_eq!(channel.len(), 3);
    for i in 0..3u32 {
        assert_eq!(channel.try_recv(), Some(AudioFrame { left: i, right: 10 + i }));
    }
    assert_eq!(channel.try_recv(), None);
}

#[test]
fn full_channel_hands_the_frame_back() {
    let mut channel = FrameChannel::new(1);
    let first = AudioFrame { left: 1, right: 2 };
    let second = AudioFrame { left: 3, right: 4 };
    assert_eq!(channel.try_send(first), Ok(()));
    assert_eq!(channel.try_send(second), Err(second));
    assert_eq!(channel.len(), 1);
    assert_eq!(channel.try_recv(), Some(first));
    assert_eq!(channel.try_send(second), Ok(()));
}

#[test]
fn channel_without_room_takes_nothing() {
    let mut channel = FrameChannel::new(0);
    let frame = AudioFrame { left: 1, right: 2 };
    assert!(channel.is_full());
    assert_eq!(channel.try_send(frame), Err(frame));
    assert!(channel.is_empty());
}

#[test]
fn cleared_channel_is_empty() {
    let mut channel = FrameChannel::new(4);
    assert_eq!(channel.try_send(AudioFrame { left: 1, right: 2 }), Ok(()));
    channel.clear();
    assert!(channel.is_empty());
    assert_eq!(channel.bound(), 4);
    assert_eq!(channel.try_recv(), None);
}
