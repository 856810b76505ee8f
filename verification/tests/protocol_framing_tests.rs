use std::collections::HashMap;
use tokio_centrifuge::framing::{
    join_json_frames, join_protobuf_frames, json_payload, split_json_lines, split_protobuf_frames,
};
use tokio_centrifuge::protocol::{
    Command, Publication, PublishRequest, Push, PushData, RawCommand, RawPush, RawReply, Reply,
    RpcRequest, RpcResult,
};

#[test]
fn command_to_raw_sets_one_field() {
    let raw = RawCommand::from(Command::Rpc(RpcRequest { data: b"x".to_vec(), method: "m".to_string() }));
    assert_eq!(raw.id, 0);
    assert!(raw.rpc.is_some());
    assert!(raw.publish.is_none());
    assert!(raw.connect.is_none());
    match Command::from(raw) {
        Command::Rpc(r) => {
            assert_eq!(r.method, "m");
            assert_eq!(r.data, b"x".to_vec());
        }
        other => panic!("unexpected {:?}", other),
    }
}

#[test]
fn empty_command_has_no_field() {
    let raw = RawCommand::from(Command::Empty);
    assert!(raw.connect.is_none() && raw.rpc.is_none() && raw.ping.is_none());
    assert!(matches!(Command::from(raw), Command::Empty));
}

#[test]
fn reply_round_trip_through_raw() {
    let raw = RawReply::from(Reply::Rpc(RpcResult { data: vec![1, 2, 3] }));
    assert!(raw.rpc.is_some());
    assert!(raw.error.is_none());
    match Reply::from(raw) {
        Reply::Rpc(r) => assert_eq!(r.data, vec![1, 2, 3]),
        other => panic!("unexpected {:?}", other),
    }
    assert!(matches!(Reply::from(RawReply::from(Reply::Empty)), Reply::Empty));
}

#[test]
fn push_round_trip_through_raw() {
    let push = Push {
        channel: "news".to_string(),
        data: PushData::Publication(Publication { data: b"hi".to_vec(), info: None, offset: 7, tags: HashMap::new() }),
    };
    let raw = RawPush::from(push);
    assert_eq!(raw.channel, "news");
    assert!(raw.publication.is_some());
    let back = Push::from(raw);
    assert_eq!(back.channel, "news");
    match back.data {
        PushData::Publication(p) => {
            assert_eq!(p.data, b"hi".to_vec());
            assert_eq!(p.offset, 7);
        }
        other => panic!("unexpected {:?}", other),
    }
}

#[test]
fn raw_command_with_two_fields_takes_the_first_kind() {
    let mut raw = RawCommand::from(Command::Publish(PublishRequest { channel: "c".to_string(), data: vec![] }));
    raw.rpc = Some(RpcRequest { data: vec![], method: "m".to_string() });
    assert!(matches!(Command::from(raw), Command::Publish(_)));
}

#[test]
fn split_protobuf_frames_reads_length_delimited_frames() {
    let data = [2u8, 10, 11, 0, 1, 42];
    let frames = split_protobuf_frames(&data);
    assert_eq!(frames, vec![vec![10, 11], vec![], vec![42]]);
}

#[test]
fn split_protobuf_frames_multibyte_length() {
    let mut data = vec![0x81u8, 0x01];
    data.extend(std::iter::repeat(7u8).take(129));
    let frames = split_protobuf_frames(&data);
    assert_eq!(frames.len(), 1);
    assert_eq!(frames[0].len(), 129);
}

#[test]
fn split_protobuf_frames_stops_at_truncated_frame() {
    let data = [1u8, 5, 3, 1];
    let frames = split_protobuf_frames(&data);
    assert_eq!(frames, vec![vec![5]]);
    let bad = [0x80u8];
    assert!(split_protobuf_frames(&bad).is_empty());
}

#[test]
fn protobuf_join_then_split_gives_frames_back() {
    let frames = vec![vec![3u8, 1, 2, 3], vec![0u8], vec![1u8, 9]];
    let joined = join_protobuf_frames(&frames);
    assert_eq!(joined, vec![3, 1, 2, 3, 0, 1, 9]);
    assert_eq!(split_protobuf_frames(&joined), vec![vec![1, 2, 3], vec![], vec![9]]);
}

#[test]
fn split_json_lines_like_bufread_lines() {
    let lines = split_json_lines(b"{\"a\":1}\n{\"b\":2}\r\n\nlast");
    assert_eq!(
        lines,
        vec![b"{\"a\":1}".to_vec(), b"{\"b\":2}".to_vec(), b"".to_vec(), b"last".to_vec()]
    );
    assert!(split_json_lines(b"").is_empty());
    assert_eq!(split_json_lines(b"one\n"), vec![b"one".to_vec()]);
}

#[test]
fn json_join_then_split_gives_lines_back() {
    let items = vec![Some("{\"id\":1}".to_string()), None, Some("{\"id\":2}".to_string())];
    let batch = join_json_frames(&items);
    assert_eq!(batch.failed, vec![1]);
    let text = batch.text.unwrap();
    assert_eq!(text, "{\"id\":1}\n{\"id\":2}");
    assert_eq!(split_json_lines(text.as_bytes()), vec![b"{\"id\":1}".to_vec(), b"{\"id\":2}".to_vec()]);
}

#[test]
fn json_join_of_failed_frames_only_is_none() {
    let batch = join_json_frames(&vec![None, None]);
    assert!(batch.text.is_none());
    assert_eq!(batch.failed, vec![0, 1]);
}

#[test]
fn empty_json_payload_is_null() {
    assert_eq!(json_payload(b""), b"null".to_vec());
    assert_eq!(json_payload(b"[1]"), b"[1]".to_vec());
}
