use std::sync::Arc;
use tokio::sync::Mutex;
use transcribe_relay::codec::{decode_samples, encode_samples, sample_to_le};
use transcribe_relay::connect::{connect_request, is_header_safe};
use transcribe_relay::error::SessionError;
use transcribe_relay::inbound::{
    accept_transcript, decode_frame, event_from_parts, pump_step, InboundEvent, PumpAction,
    TranscriptEvent,
};
use transcribe_relay::session::SessionRegistry;

fn frame(is_final: &str, transcript: &str) -> String {
    format!(
        "{{\"is_final\":{},\"channel\":{{\"alternatives\":[{{\"transcript\":\"{}\"}}]}}}}",
        is_final, transcript
    )
}

#[test]
fn encodes_samples_little_endian() {
    assert_eq!(sample_to_le(1), [1, 0]);
    assert_eq!(sample_to_le(-1), [0xff, 0xff]);
    assert_eq!(sample_to_le(0x1234), [0x34, 0x12]);
    let bytes = encode_samples(&[1, -1, 256, i16::MIN, i16::MAX, -2]);
    assert_eq!(
        bytes,
        vec![1, 0, 0xff, 0xff, 0, 1, 0, 0x80, 0xff, 0x7f, 0xfe, 0xff]
    );
}

#[test]
fn encodes_empty_chunk_to_no_bytes() {
    assert_eq!(encode_samples(&[]), Vec::<u8>::new());
    assert_eq!(decode_samples(&[]), Some(vec![]));
}

#[test]
fn round_trip_restores_samples() {
    let samples: Vec<i16> = vec![0, 1, -1, 300, -300, i16::MIN, i16::MAX, 12345, -12345];
    let bytes = encode_samples(&samples);
    assert_eq!(bytes.len(), 2 * samples.len());
    assert_eq!(decode_samples(&bytes), Some(samples));
}

#[test]
fn decoding_odd_length_fails() {
    assert_eq!(decode_samples(&[1, 2, 3]), None);
    assert_eq!(decode_samples(&[0x00, 0x80]), Some(vec![i16::MIN]));
}

#[test]
fn send_before_any_start_is_not_initialized() {
    let reg: SessionRegistry<u32> = SessionRegistry::new();
    assert!(!reg.is_active());
    assert_eq!(reg.writer().err(), Some(SessionError::NotInitialized));
    assert_eq!(reg.prepare_send(&[1, 2, 3]).err(), Some(SessionError::NotInitialized));
    assert_eq!(SessionError::NotInitialized.message(), "Not initialized");
}

#[test]
fn stop_without_session_is_a_no_op() {
    let mut reg: SessionRegistry<u32> = SessionRegistry::new();
    assert_eq!(reg.take(), None);
    assert_eq!(reg.take(), None);
    assert!(!reg.is_active());
    assert_eq!(reg.writer().err(), Some(SessionError::NotInitialized));

    reg.install(7);
    assert_eq!(reg.take(), Some(7));
    assert_eq!(reg.take(), None);
    assert!(!reg.is_active());
    assert_eq!(reg.writer().err(), Some(SessionError::SessionNotActive));
}

#[test]
fn start_send_three_chunks_then_stop() {
    let mut reg: SessionRegistry<u32> = SessionRegistry::new();
    let request = connect_request(Some("secret".to_string())).unwrap();
    assert_eq!(request.authorization, "Token secret");
    assert_eq!(reg.install(1), None);
    assert!(reg.is_active());

    let chunks: Vec<Vec<i16>> = vec![vec![1, 2], vec![-3], vec![]];
    let mut wire: Vec<Vec<u8>> = Vec::new();
    for chunk in &chunks {
        let (w, bytes) = reg.prepare_send(chunk).unwrap();
        assert_eq!(*w, 1);
        wire.push(bytes);
    }
    assert_eq!(wire, vec![vec![1, 0, 2, 0], vec![0xfd, 0xff], vec![]]);

    assert_eq!(reg.take(), Some(1));
    let err = reg.prepare_send(&[5]).err().unwrap();
    assert_eq!(err, SessionError::SessionNotActive);
    assert_eq!(err.message(), "Deepgram not running");
}

#[test]
fn second_start_hands_back_previous_writer() {
    let mut reg: SessionRegistry<u32> = SessionRegistry::new();
    assert_eq!(reg.install(1), None);
    assert_eq!(reg.install(2), Some(1));
    assert_eq!(*reg.writer().unwrap(), 2);
}

#[test]
fn missing_credential_fails_and_leaves_registry_alone() {
    let reg: SessionRegistry<u32> = SessionRegistry::new();
    let err = connect_request(None).err().unwrap();
    assert_eq!(
        err,
        SessionError::ConfigError("Missing DEEPGRAM_API_KEY".to_string())
    );
    assert_eq!(err.message(), "Missing DEEPGRAM_API_KEY");
    assert!(!reg.is_active());
    assert_eq!(reg.writer().err(), Some(SessionError::NotInitialized));

    let mut used: SessionRegistry<u32> = SessionRegistry::new();
    used.install(3);
    used.take();
    assert!(connect_request(None).is_err());
    assert_eq!(used.writer().err(), Some(SessionError::SessionNotActive));
}

#[test]
fn request_carries_endpoint_and_token() {
    let request = connect_request(Some("abc123".to_string())).unwrap();
    assert_eq!(
        request.url,
        "wss://api.deepgram.com/v1/listen?encoding=linear16&sample_rate=16000&punctuate=true&interim_results=true"
    );
    assert_eq!(request.authorization, "Token abc123");
}

#[test]
fn credential_with_control_character_is_refused() {
    assert!(is_header_safe("abc\tdef é"));
    assert!(!is_header_safe("abc\ndef"));
    assert!(!is_header_safe("abc\u{7f}"));
    let err = connect_request(Some("bad\nkey".to_string())).err().unwrap();
    assert!(matches!(err, SessionError::ConfigError(_)));
}

#[test]
fn error_messages_carry_transport_text() {
    let e = SessionError::TransportError("broken pipe".to_string());
    assert_eq!(e.message(), "broken pipe");
    let h = SessionError::HandshakeError("HTTP error: 401".to_string());
    assert_eq!(h.message(), "HTTP error: 401");
}

#[test]
fn whitespace_transcript_emits_nothing() {
    let text = frame("false", "  ");
    assert_eq!(decode_frame(&text), None);
    assert_eq!(pump_step(&InboundEvent::Frame(Some(text))), PumpAction::Skip);
}

#[test]
fn final_transcript_emits_one_notification() {
    let text = frame("true", "hello");
    let expected = TranscriptEvent { text: "hello".to_string(), is_final: true };
    assert_eq!(decode_frame(&text), Some(expected.clone()));
    assert_eq!(pump_step(&InboundEvent::Frame(Some(text))), PumpAction::Emit(expected));
}

#[test]
fn interim_transcript_keeps_surrounding_space() {
    let text = frame("false", " hi there ");
    assert_eq!(
        decode_frame(&text),
        Some(TranscriptEvent { text: " hi there ".to_string(), is_final: false })
    );
}

#[test]
fn missing_final_flag_counts_as_false() {
    let text = "{\"channel\":{\"alternatives\":[{\"transcript\":\"ok\"}]}}";
    assert_eq!(
        decode_frame(text),
        Some(TranscriptEvent { text: "ok".to_string(), is_final: false })
    );
    let text = "{\"is_final\":\"yes\",\"channel\":{\"alternatives\":[{\"transcript\":\"ok\"}]}}";
    assert_eq!(decode_frame(text).map(|e| e.is_final), Some(false));
}

#[test]
fn malformed_frames_are_skipped_without_stopping() {
    let cases = [
        "not json",
        "{\"is_final\":true",
        "{\"is_final\":true}",
        "{\"channel\":{\"alternatives\":[]}}",
        "{\"channel\":{\"alternatives\":[{\"words\":[]}]}}",
        "{\"channel\":{\"alternatives\":[{\"transcript\":5}]}}",
        "[1,2,3]",
    ];
    for text in cases {
        assert_eq!(decode_frame(text), None);
        assert_eq!(
            pump_step(&InboundEvent::Frame(Some(text.to_string()))),
            PumpAction::Skip
        );
    }
    assert_eq!(pump_step(&InboundEvent::Frame(None)), PumpAction::Skip);
}

#[test]
fn pump_stops_on_end_or_read_failure() {
    assert_eq!(pump_step(&InboundEvent::EndOfStream), PumpAction::Stop);
    assert_eq!(pump_step(&InboundEvent::ReadFailed), PumpAction::Stop);
}

#[test]
fn transcript_filter_uses_trimmed_text() {
    assert_eq!(accept_transcript(Some(true), None), None);
    assert_eq!(accept_transcript(Some(true), Some(" \t\n ")), None);
    assert_eq!(
        accept_transcript(None, Some(" a ")),
        Some(TranscriptEvent { text: " a ".to_string(), is_final: false })
    );
    assert_eq!(event_from_parts("  ", "", Some(true)), None);
    assert_eq!(
        event_from_parts(" x ", "x", Some(true)),
        Some(TranscriptEvent { text: " x ".to_string(), is_final: true })
    );
}

#[test]
fn concurrent_sends_arrive_whole() {
    let runtime = tokio::runtime::Builder::new_current_thread().build().unwrap();
    runtime.block_on(async {
        let wire: Arc<Mutex<Vec<Vec<u8>>>> = Arc::new(Mutex::new(Vec::new()));
        let mut reg: SessionRegistry<Arc<Mutex<Vec<Vec<u8>>>>> = SessionRegistry::new();
        reg.install(wire.clone());
        let reg = Arc::new(Mutex::new(reg));

        let mut tasks = Vec::new();
        for k in 0..8i16 {
            let reg = reg.clone();
            tasks.push(tokio::spawn(async move {
                let chunk: Vec<i16> = (0..50).map(|j| k * 100 + j).collect();
                let guard = reg.lock().await;
                let (writer, bytes) = guard.prepare_send(&chunk).unwrap();
                let writer = writer.clone();
                drop(guard);
                tokio::task::yield_now().await;
                writer.lock().await.push(bytes);
            }));
        }
        for t in tasks {
            t.await.unwrap();
        }

        let frames = wire.lock().await;
        assert_eq!(frames.len(), 8);
        let mut firsts: Vec<i16> = Vec::new();
        for f in frames.iter() {
            let samples = decode_samples(f).unwrap();
            assert_eq!(samples.len(), 50);
            let first = samples[0];
            for (j, s) in samples.iter().enumerate() {
                assert_eq!(*s, first + j as i16);
            }
            firsts.push(first);
        }
        firsts.sort();
        assert_eq!(firsts, (0..8).map(|k| k * 100).collect::<Vec<i16>>());
    });
}

#[test]
fn unicode_white_space_transcript_emits_nothing() {
    let text = frame("true", "\u{a0}\u{3000}\\t");
    assert_eq!(decode_frame(&text), None);
    let text = frame("true", "\u{a0}ok\u{2003}");
    assert_eq!(
        decode_frame(&text),
        Some(TranscriptEvent { text: "\u{a0}ok\u{2003}".to_string(), is_final: true })
    );
}
