use spkr::audio::{choose_input_device, plan_stop, DeviceChoice, StopPlan, TARGET_SAMPLE_RATE};
use spkr::transcription::{
    collect_transcript, groq_error_message, groq_request, groq_transcript, transcript_from_member,
    TranscriptionTiming,
};
use spkr::wav::pcm_to_wav;

fn names(v: &[Option<&str>]) -> Vec<Option<String>> {
    v.iter().map(|o| o.map(|s| s.to_string())).collect()
}

#[test]
fn device_saved_and_present() {
    let list = names(&[Some("Built-in"), None, Some("USB Mic"), Some("USB Mic")]);
    assert_eq!(
        choose_input_device(&Some("USB Mic".to_string()), &list, true),
        Ok(DeviceChoice::Listed(2))
    );
    assert_eq!(
        choose_input_device(&Some("USB Mic".to_string()), &list, false),
        Ok(DeviceChoice::Listed(2))
    );
}

#[test]
fn device_saved_but_missing_falls_back() {
    let list = names(&[Some("Built-in")]);
    assert_eq!(
        choose_input_device(&Some("Headset".to_string()), &list, true),
        Ok(DeviceChoice::SystemDefault)
    );
}

#[test]
fn device_none_saved_uses_default() {
    let list = names(&[Some("Built-in")]);
    assert_eq!(choose_input_device(&None, &list, true), Ok(DeviceChoice::SystemDefault));
}

#[test]
fn device_no_default_is_error() {
    let list = names(&[]);
    assert_eq!(
        choose_input_device(&None, &list, false),
        Err("No default input device available".to_string())
    );
    let list = names(&[Some("Built-in")]);
    assert_eq!(
        choose_input_device(&Some("Headset".to_string()), &list, false),
        Err("No default input device available".to_string())
    );
}

#[test]
fn stop_plans() {
    assert_eq!(TARGET_SAMPLE_RATE, 16000);
    assert_eq!(plan_stop(0, 2, 44100), StopPlan::Discard);
    assert_eq!(plan_stop(10, 1, 16000), StopPlan::Transcribe { downmix: false, resample: false });
    assert_eq!(plan_stop(10, 2, 16000), StopPlan::Transcribe { downmix: true, resample: false });
    assert_eq!(plan_stop(10, 1, 48000), StopPlan::Transcribe { downmix: false, resample: true });
    assert_eq!(plan_stop(10, 2, 44100), StopPlan::Transcribe { downmix: true, resample: true });
}

#[test]
fn wav_exact_bytes() {
    let wav = pcm_to_wav(&[0, -1, 32767, -32768], 16000);
    let mut expected: Vec<u8> = Vec::new();
    expected.extend_from_slice(b"RIFF");
    expected.extend_from_slice(&44u32.to_le_bytes());
    expected.extend_from_slice(b"WAVE");
    expected.extend_from_slice(b"fmt ");
    expected.extend_from_slice(&[16, 0, 0, 0, 1, 0, 1, 0]);
    expected.extend_from_slice(&16000u32.to_le_bytes());
    expected.extend_from_slice(&32000u32.to_le_bytes());
    expected.extend_from_slice(&[2, 0, 16, 0]);
    expected.extend_from_slice(b"data");
    expected.extend_from_slice(&8u32.to_le_bytes());
    expected.extend_from_slice(&[0x00, 0x00, 0xff, 0xff, 0xff, 0x7f, 0x00, 0x80]);
    assert_eq!(wav, expected);
}

#[test]
fn wav_empty_is_header_only() {
    let wav = pcm_to_wav(&[], 44100);
    assert_eq!(wav.len(), 44);
    assert_eq!(&wav[4..8], &36u32.to_le_bytes());
    assert_eq!(&wav[24..28], &44100u32.to_le_bytes());
    assert_eq!(&wav[28..32], &88200u32.to_le_bytes());
    assert_eq!(&wav[40..44], &0u32.to_le_bytes());
}

#[test]
fn wav_reads_back() {
    let samples: Vec<i16> = (0..300).map(|i: i32| ((i * 217) % 65536 - 32768) as i16).collect();
    let wav = pcm_to_wav(&samples, 16000);
    assert_eq!(wav.len(), 44 + 2 * samples.len());
    let riff = u32::from_le_bytes(wav[4..8].try_into().unwrap());
    assert_eq!(riff as usize, wav.len() - 8);
    let data = u32::from_le_bytes(wav[40..44].try_into().unwrap());
    assert_eq!(data as usize, 2 * samples.len());
    for (k, s) in samples.iter().enumerate() {
        let w = i16::from_le_bytes([wav[44 + 2 * k], wav[45 + 2 * k]]);
        assert_eq!(w, *s);
    }
}

#[test]
fn transcript_joins_and_trims() {
    let segs = vec![" Hello".to_string(), " world.".to_string(), "\n".to_string()];
    assert_eq!(collect_transcript(&segs), "Hello world.");
    assert_eq!(collect_transcript(&vec![]), "");
    assert_eq!(collect_transcript(&vec!["\u{3000} a b \t".to_string()]), "a b");
}

#[test]
fn groq_request_needs_key() {
    assert_eq!(groq_request("", &[1, 2]).err(), Some("Groq API key not set".to_string()));
}

#[test]
fn groq_request_fields() {
    let req = groq_request("gsk_test", &[5]).ok().unwrap();
    assert_eq!(req.url, "https://api.groq.com/openai/v1/audio/transcriptions");
    assert_eq!(req.authorization, "Bearer gsk_test");
    assert_eq!(req.model, "whisper-large-v3-turbo");
    assert_eq!(req.response_format, "json");
    assert_eq!(req.file_name, "audio.wav");
    assert_eq!(req.mime_type, "audio/wav");
    assert_eq!(req.wav, pcm_to_wav(&[5], 16000));
}

#[test]
fn groq_error_text() {
    assert_eq!(
        groq_error_message("401 Unauthorized", "{\"error\":\"bad key\"}"),
        "Groq API error 401 Unauthorized: {\"error\":\"bad key\"}"
    );
}

#[test]
fn groq_transcript_ok() {
    assert_eq!(
        groq_transcript(br#"{"text":"  Hello there. ","x_groq":{"id":"1"}}"#),
        Ok("Hello there.".to_string())
    );
}

#[test]
fn groq_transcript_missing_text() {
    assert_eq!(
        groq_transcript(br#"{"result":"Hello"}"#),
        Err("Unexpected Groq response format".to_string())
    );
    assert_eq!(
        groq_transcript(br#"{"text":42}"#),
        Err("Unexpected Groq response format".to_string())
    );
    assert_eq!(
        groq_transcript(br#"["text"]"#),
        Err("Unexpected Groq response format".to_string())
    );
}

#[test]
fn groq_transcript_not_json() {
    assert_eq!(
        groq_transcript(b"<html>oops</html>"),
        Err("error decoding response body".to_string())
    );
}

#[test]
fn member_to_transcript() {
    assert_eq!(transcript_from_member(Some(Some(" hi ".to_string()))), Ok("hi".to_string()));
    assert_eq!(
        transcript_from_member(Some(None)),
        Err("Unexpected Groq response format".to_string())
    );
    assert_eq!(transcript_from_member(None), Err("error decoding response body".to_string()));
}

#[test]
fn timing_fields() {
    let t = TranscriptionTiming {
        model_load_ms: 1,
        inference_ms: 2,
        segment_collect_ms: 3,
        total_transcription_ms: 6,
    };
    assert_eq!(t.total_transcription_ms, 6);
    assert_eq!(t, t.clone());
}
