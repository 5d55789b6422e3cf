use octos_makepad::host_managed::{
    connection_ended, feed_code, frame_inbound, frame_outbound, octos_host_managed_feed,
    octos_host_managed_free, octos_host_managed_start, session_with_runtime, write_outcome,
    EndPlan, ReadStep, Reader,
};

#[test]
fn messages_become_lines() {
    assert_eq!(frame_inbound(b"{}"), b"{}\n");
    assert_eq!(frame_inbound(b"{}\n"), b"{}\n");
    assert_eq!(frame_inbound(b""), b"\n");
    assert_eq!(frame_inbound(b"a\nb"), b"a\nb\n");
    assert_eq!(frame_outbound(b"{}\n"), b"{}");
    assert_eq!(frame_outbound(b"{}"), b"{}");
    assert_eq!(frame_outbound(b"{}\n\n"), b"{}\n");
    assert_eq!(frame_outbound(b""), b"");
    assert_eq!(frame_outbound(&frame_inbound(b"{}")), b"{}");
}

#[test]
fn a_write_counts_as_a_whole() {
    assert_eq!(write_outcome(7, 1), Ok(7));
    assert_eq!(write_outcome(7, -1), Ok(7));
    assert_eq!(write_outcome(7, 0), Err("host send callback failed".to_string()));
}

#[test]
fn a_reader_hands_out_what_came() {
    let mut reader = Reader::new();
    let mut buffer = [0u8; 4];
    assert_eq!(reader.read(&mut buffer), ReadStep::NeedChunk);
    reader.accept(b"hello\n".to_vec());
    assert_eq!(reader.read(&mut buffer), ReadStep::Ready(4));
    assert_eq!(&buffer, b"hell");
    assert_eq!(reader.read(&mut []), ReadStep::Ready(0));
    assert_eq!(reader.read(&mut buffer), ReadStep::Ready(2));
    assert_eq!(&buffer, b"o\nll");
    assert_eq!(reader.read(&mut buffer), ReadStep::NeedChunk);
    reader.accept(Vec::new());
    assert_eq!(reader.read(&mut buffer), ReadStep::NeedChunk);
    reader.end();
    assert_eq!(reader.read(&mut buffer), ReadStep::Ready(0));
}

#[test]
fn a_reader_gives_back_all_that_was_fed() {
    let chunks: Vec<Vec<u8>> = vec![b"one\n".to_vec(), b"".to_vec(), b"twenty\n".to_vec()];
    let mut reader = Reader::new();
    let mut seen: Vec<u8> = Vec::new();
    let mut next = chunks.iter();
    let mut buffer = [0u8; 3];
    loop {
        match reader.read(&mut buffer) {
            ReadStep::Ready(0) => break,
            ReadStep::Ready(n) => seen.extend_from_slice(&buffer[..n]),
            ReadStep::NeedChunk => match next.next() {
                Some(chunk) => reader.accept(chunk.clone()),
                None => reader.end(),
            },
        }
    }
    assert_eq!(seen, chunks.concat());
}

#[test]
fn a_session_needs_a_callback_and_a_name() {
    assert_eq!(
        octos_host_managed_start(false, Err("not utf-8".into())).unwrap_err(),
        "a send callback is required"
    );
    assert_eq!(octos_host_managed_start(true, Err("not utf-8".into())).unwrap_err(), "not utf-8");
    assert_eq!(octos_host_managed_start(true, Ok("xpc-extension".into())).unwrap(), "xpc-extension");
    assert_eq!(
        session_with_runtime(Err("no threads".into())).unwrap_err(),
        "failed to build tokio runtime: no threads"
    );
    assert_eq!(connection_ended("eof"), "host-managed ACP connection ended: eof");
}

#[test]
fn a_session_is_fed_until_it_is_freed() {
    let mut session = session_with_runtime(Ok(())).unwrap();
    assert_eq!(octos_host_managed_feed(Some(&session), Some(b"{}")), Some(b"{}\n".to_vec()));
    assert!(octos_host_managed_feed(Some(&session), None).is_none());
    assert!(octos_host_managed_feed(None, Some(b"{}")).is_none());
    assert_eq!((feed_code(true), feed_code(false)), (1, 0));
    let plan = octos_host_managed_free(&mut session);
    assert_eq!(plan, EndPlan { close_feed: true, shut_down_ms: Some(500) });
    assert!(octos_host_managed_feed(Some(&session), Some(b"{}")).is_none());
    let plan = octos_host_managed_free(&mut session);
    assert_eq!(plan, EndPlan { close_feed: false, shut_down_ms: None });
}

#[test]
fn messages_arrive_as_lines() {
    let session = session_with_runtime(Ok(())).unwrap();
    let messages: [&[u8]; 4] = [b"{\"id\":1}", b"{\"id\":2}\n", b"", b"{\"id\":3}"];
    let mut reader = Reader::new();
    let mut seen: Vec<u8> = Vec::new();
    let mut buffer = [0u8; 5];
    for message in messages {
        let frame = octos_host_managed_feed(Some(&session), Some(message)).unwrap();
        assert_eq!(reader.read(&mut buffer), ReadStep::NeedChunk);
        reader.accept(frame);
        loop {
            match reader.read(&mut buffer) {
                ReadStep::Ready(n) => seen.extend_from_slice(&buffer[..n]),
                ReadStep::NeedChunk => break,
            }
        }
    }
    let lines: Vec<&[u8]> = seen.strip_suffix(b"\n").unwrap().split(|b| *b == b'\n').collect();
    let expected: [&[u8]; 4] = [b"{\"id\":1}", b"{\"id\":2}", b"", b"{\"id\":3}"];
    assert_eq!(lines, expected);
}
