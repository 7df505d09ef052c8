use aoede::error::BridgeError;
use aoede::frame::AudioFrame;
use aoede::sink::{AudioPacket, Block, EmittedSink, QUEUE_CAPACITY};

fn samples(range: std::ops::Range<u32>) -> AudioPacket {
    AudioPacket::Samples(range.collect())
}

fn written(sink: &mut EmittedSink, packet: AudioPacket) -> Vec<Block> {
    match sink.write(&packet) {
        Ok(blocks) => blocks,
        Err(error) => panic!("{:?}", error),
    }
}

fn fill(sink: &mut EmittedSink, frames: u32) {
    let left: Vec<u32> = (0..frames).collect();
    let right: Vec<u32> = (0..frames).map(|i| 1000 + i).collect();
    assert_eq!(sink.enqueue(&left, &right), frames as usize);
}

#[test]
fn new_sink_is_empty_and_cold() {
    let sink = EmittedSink::new(1029);
    assert_eq!(sink.frames_needed(), 1029);
    assert_eq!(sink.pending_len(), 0);
    assert_eq!(sink.queued_len(), 0);
    assert!(!sink.is_seekable());
    assert_eq!(sink.byte_len(), None);
}

#[test]
fn write_hands_out_full_blocks_and_keeps_the_rest() {
    let mut sink = EmittedSink::new(2);
    let blocks = written(&mut sink, samples(1..8));
    assert_eq!(blocks.len(), 1);
    assert_eq!(blocks[0].left, vec![1, 3]);
    assert_eq!(blocks[0].right, vec![2, 4]);
    assert!(blocks[0].fresh);
    assert_eq!(sink.pending_len(), 1);

    let blocks = written(&mut sink, samples(10..16));
    assert_eq!(blocks.len(), 2);
    assert_eq!(blocks[0].left, vec![5, 10]);
    assert_eq!(blocks[0].right, vec![6, 11]);
    assert_eq!(blocks[1].left, vec![12, 14]);
    assert_eq!(blocks[1].right, vec![13, 15]);
    assert!(!blocks[0].fresh);
    assert!(!blocks[1].fresh);
    assert_eq!(sink.pending_len(), 0);
}

#[test]
fn odd_last_sample_of_a_packet_is_dropped() {
    let mut sink = EmittedSink::new(4);
    assert!(written(&mut sink, samples(0..3)).is_empty());
    assert_eq!(sink.pending_len(), 1);
    assert!(written(&mut sink, samples(0..1)).is_empty());
    assert_eq!(sink.pending_len(), 1);
    assert!(written(&mut sink, AudioPacket::Samples(Vec::new())).is_empty());
    assert_eq!(sink.pending_len(), 1);
}

#[test]
fn packet_without_samples_is_skipped() {
    let mut sink = EmittedSink::new(2);
    assert!(written(&mut sink, samples(0..2)).is_empty());
    match sink.write(&AudioPacket::Raw(vec![1, 2, 3, 4, 5, 6, 7, 8])) {
        Err(error) => assert_eq!(error, BridgeError::MalformedPacket),
        Ok(_) => panic!("raw data was taken for samples"),
    }
    assert_eq!(sink.pending_len(), 1);
    let blocks = written(&mut sink, samples(2..4));
    assert_eq!(blocks.len(), 1);
    assert_eq!(blocks[0].left, vec![0, 2]);
    assert_eq!(blocks[0].right, vec![1, 3]);
    assert!(blocks[0].fresh);
}

#[test]
fn whole_blocks_in_give_whole_blocks_out() {
    let block = 7usize;
    let mut sink = EmittedSink::new(block);
    let mut handed_out = 0usize;
    let mut total_frames = 0usize;
    for len in [3u32, 20, 1, 0, 11, 7] {
        let blocks = written(&mut sink, samples(0..2 * len));
        for b in &blocks {
            assert_eq!(b.left.len(), block);
            assert_eq!(b.right.len(), block);
        }
        handed_out += blocks.len();
        total_frames += len as usize;
    }
    assert_eq!(total_frames, 42);
    assert_eq!(handed_out, total_frames / block);
    assert_eq!(sink.pending_len(), 0);
}

#[test]
fn enqueue_stops_at_the_bound() {
    let mut sink = EmittedSink::new(4);
    let left: Vec<u32> = (0..1500).collect();
    let right: Vec<u32> = (0..1500).map(|i| i + 5000).collect();
    let taken = sink.enqueue(&left, &right);
    assert_eq!(taken, QUEUE_CAPACITY);
    assert_eq!(sink.queued_len(), 1120);
    assert_eq!(sink.enqueue(&left[taken..], &right[taken..]), 0);

    let mut buff = [0u8; 16];
    assert_eq!(sink.read(&mut buff), Ok(16));
    assert_eq!(sink.enqueue(&left[taken..], &right[taken..]), 2);
    assert_eq!(sink.queued_len(), 1120);
}

#[test]
fn enqueue_pairs_as_far_as_both_channels_reach() {
    let mut sink = EmittedSink::new(4);
    assert_eq!(sink.enqueue(&[1, 2, 3], &[4, 5]), 2);
    assert_eq!(sink.enqueue(&[], &[4, 5]), 0);
    let mut buff = [0u8; 24];
    assert_eq!(sink.read(&mut buff), Ok(16));
    assert_eq!(&buff[..16], &[1, 0, 0, 0, 4, 0, 0, 0, 2, 0, 0, 0, 5, 0, 0, 0]);
}

#[test]
fn read_rejects_a_buffer_smaller_than_a_frame() {
    let mut sink = EmittedSink::new(4);
    fill(&mut sink, 3);
    for len in 0..8usize {
        let mut buff = vec![0xabu8; len];
        assert_eq!(sink.read(&mut buff), Err(BridgeError::BufferTooSmall));
        assert_eq!(buff, vec![0xabu8; len]);
        assert_eq!(sink.queued_len(), 3);
    }
    let mut buff = [0u8; 8];
    assert_eq!(sink.read(&mut buff), Ok(8));
    assert_eq!(buff, [0, 0, 0, 0, 0xe8, 3, 0, 0]);
}

#[test]
fn read_on_an_empty_queue_asks_to_wait() {
    let mut sink = EmittedSink::new(4);
    let mut buff = [7u8; 32];
    assert_eq!(sink.read(&mut buff), Err(BridgeError::WouldBlock));
    assert_eq!(buff, [7u8; 32]);
    fill(&mut sink, 1);
    assert_eq!(sink.read(&mut buff), Ok(8));
    assert_eq!(sink.read(&mut buff), Err(BridgeError::WouldBlock));
}

#[test]
fn read_takes_whole_frames_only() {
    let mut sink = EmittedSink::new(4);
    fill(&mut sink, 5);
    let mut buff = [0xeeu8; 21];
    assert_eq!(sink.read(&mut buff), Ok(16));
    assert_eq!(&buff[..8], &[0, 0, 0, 0, 0xe8, 3, 0, 0]);
    assert_eq!(&buff[8..16], &[1, 0, 0, 0, 0xe9, 3, 0, 0]);
    assert_eq!(&buff[16..], &[0xee; 5]);
    assert_eq!(sink.queued_len(), 3);
    let mut wide = [0u8; 64];
    assert_eq!(sink.read(&mut wide), Ok(24));
    assert_eq!(sink.queued_len(), 0);
}

#[test]
fn frames_are_read_in_the_order_of_production() {
    let mut sink = EmittedSink::new(4);
    let mut produced: Vec<AudioFrame> = Vec::new();
    let mut delivered: Vec<AudioFrame> = Vec::new();
    let mut next = 0u32;
    let script: [(usize, usize); 6] = [(5, 16), (0, 8), (1120, 40), (700, 8000), (3, 9000), (0, 9000)];
    for (offer, room) in script {
        let left: Vec<u32> = (0..offer as u32).map(|i| next + i).collect();
        let right: Vec<u32> = left.iter().map(|l| !l).collect();
        let taken = sink.enqueue(&left, &right);
        for i in 0..taken {
            produced.push(AudioFrame { left: left[i], right: right[i] });
        }
        next += offer as u32;
        let mut buff = vec![0u8; room];
        if let Ok(count) = sink.read(&mut buff) {
            assert!(count >= 8 && count % 8 == 0);
            for chunk in buff[..count].chunks_exact(8) {
                delivered.push(AudioFrame {
                    left: u32::from_le_bytes([chunk[0], chunk[1], chunk[2], chunk[3]]),
                    right: u32::from_le_bytes([chunk[4], chunk[5], chunk[6], chunk[7]]),
                });
            }
        }
    }
    assert_eq!(sink.queued_len(), 0);
    assert_eq!(delivered.len(), produced.len());
    assert_eq!(delivered, produced);
}

#[test]
fn reset_drops_everything_and_marks_the_next_block_fresh() {
    let mut sink = EmittedSink::new(3);
    let blocks = written(&mut sink, samples(0..8));
    assert_eq!(blocks.len(), 1);
    assert!(blocks[0].fresh);
    assert_eq!(sink.pending_len(), 1);
    fill(&mut sink, 9);

    sink.reset();
    assert_eq!(sink.pending_len(), 0);
    assert_eq!(sink.queued_len(), 0);
    assert_eq!(sink.frames_needed(), 3);
    let mut buff = [0u8; 64];
    assert_eq!(sink.read(&mut buff), Err(BridgeError::WouldBlock));
    assert_eq!(buff, [0u8; 64]);

    let blocks = written(&mut sink, samples(100..112));
    assert_eq!(blocks.len(), 2);
    assert_eq!(blocks[0].left, vec![100, 102, 104]);
    assert_eq!(blocks[0].right, vec![101, 103, 105]);
    assert!(blocks[0].fresh);
    assert!(!blocks[1].fresh);
}
