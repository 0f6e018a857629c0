use kopuz::worker::{
    after_decode, after_read, after_seek, chunk_len, drain_step, park_step, CommandStep, DecodeResult,
    DecodeStep, FlowChange, ReadResult, ReadStep, Received, SeekResult,
};

#[test]
fn reads_decide_between_decoding_skipping_and_ending() {
    assert_eq!(after_read(ReadResult::Packet { track_id: 1 }, 1), ReadStep::Decode);
    assert_eq!(after_read(ReadResult::Packet { track_id: 2 }, 1), ReadStep::SkipPacket);
    assert_eq!(after_read(ReadResult::ResetRequired, 1), ReadStep::ResetDecoder);
    assert_eq!(after_read(ReadResult::EndOfStream, 1), ReadStep::EndOfTrack);
    assert_eq!(after_read(ReadResult::UnexpectedEof, 1), ReadStep::EndOfTrack);
    assert_eq!(after_read(ReadResult::Failed, 1), ReadStep::EndOfTrack);
    assert_eq!(after_decode(DecodeResult::Decoded), DecodeStep::Write);
    assert_eq!(after_decode(DecodeResult::Recoverable), DecodeStep::SkipPacket);
    assert_eq!(after_decode(DecodeResult::Fatal), DecodeStep::EndOfTrack);
}

#[test]
fn draining_seeks_and_reports_them() {
    let seek = Received::Seek { target_nanos: 5, epoch: 2 };
    assert_eq!(drain_step(false, seek), CommandStep::SeekTo { target_nanos: 5, epoch: 2 });
    assert_eq!(drain_step(false, Received::Start), CommandStep::Ignore);
    assert_eq!(drain_step(true, Received::Empty), CommandStep::Finish(Some(FlowChange::Seeked)));
    assert_eq!(drain_step(false, Received::Empty), CommandStep::Finish(None));
    assert_eq!(drain_step(false, Received::Closed), CommandStep::Finish(Some(FlowChange::Exit)));
    assert_eq!(after_seek(SeekResult::NeedsReprobe, 9), Some(FlowChange::Reprobe(9)));
    assert_eq!(after_seek(SeekResult::Done, 9), None);
}

#[test]
fn a_parked_worker_waits_for_a_seek_or_a_stop() {
    assert_eq!(park_step(Received::Start), CommandStep::Ignore);
    assert_eq!(park_step(Received::Stop), CommandStep::Finish(Some(FlowChange::Exit)));
    assert_eq!(park_step(Received::Seek { target_nanos: 1, epoch: 3 }), CommandStep::SeekTo { target_nanos: 1, epoch: 3 });
    assert_eq!(chunk_len(10, 4), 4);
    assert_eq!(chunk_len(3, 4), 3);
}
