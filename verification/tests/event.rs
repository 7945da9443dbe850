use base64::Engine;
use pda_records::codec::Codec;
use pda_records::counter::accounts::Counter;
use pda_records::counter::events::{CounterAuthorityIncreased, CounterEvent, CounterInitialized};
use pda_records::error::ProgramError;
use pda_records::event::{
    emit, encode_text, log_line, serialize, SliceWriter, MAX_BASE64_SIZE, MAX_EVENT_SIZE,
};

#[test]
fn buffer_sizes_are_fixed() {
    assert_eq!(MAX_EVENT_SIZE, 256);
    assert_eq!(MAX_BASE64_SIZE, 344);
}

#[test]
fn writer_starts_empty() {
    let mut buf = [0u8; 4];
    let writer = SliceWriter::new(&mut buf);
    assert_eq!(writer.written(), 0);
}

#[test]
fn writer_fills_from_the_front() {
    let mut buf = [9u8; 6];
    let mut writer = SliceWriter::new(&mut buf);
    assert_eq!(writer.write(&[1, 2]), Ok(2));
    assert_eq!(writer.written(), 2);
    assert_eq!(writer.write(&[]), Ok(0));
    assert_eq!(writer.write(&[3, 4, 5]), Ok(3));
    assert_eq!(writer.written(), 5);
    assert_eq!(writer.flush(), Ok(()));
    assert_eq!(writer.written(), 5);
    assert_eq!(buf, [1, 2, 3, 4, 5, 9]);
}

#[test]
fn writer_refuses_what_does_not_fit() {
    let mut buf = [9u8; 4];
    let mut writer = SliceWriter::new(&mut buf);
    assert_eq!(writer.write(&[1, 2, 3]), Ok(3));
    assert_eq!(writer.write(&[4, 5]), Err(ProgramError::EncodingOverflow));
    assert_eq!(writer.written(), 3);
    assert_eq!(writer.write(&[4]), Ok(1));
    assert_eq!(writer.write(&[5]), Err(ProgramError::EncodingOverflow));
    assert_eq!(writer.written(), 4);
    assert_eq!(buf, [1, 2, 3, 4]);
}

#[test]
fn writer_on_an_empty_buffer_takes_nothing() {
    let mut buf: [u8; 0] = [];
    let mut writer = SliceWriter::new(&mut buf);
    assert_eq!(writer.write(&[]), Ok(0));
    assert_eq!(writer.write(&[1]), Err(ProgramError::EncodingOverflow));
    assert_eq!(writer.written(), 0);
}

#[test]
fn records_are_stored_at_the_front_of_storage() {
    let mut storage = [0u8; 9];
    let mut writer = SliceWriter::new(&mut storage);
    assert_eq!(serialize(&Counter { bump: 254, count: 19 }, &mut writer), Ok(()));
    assert_eq!(writer.written(), 9);
    assert_eq!(storage, [254, 19, 0, 0, 0, 0, 0, 0, 0]);

    let mut short = [7u8; 8];
    let mut writer = SliceWriter::new(&mut short);
    assert_eq!(
        serialize(&Counter { bump: 254, count: 19 }, &mut writer),
        Err(ProgramError::EncodingOverflow)
    );
    assert_eq!(writer.written(), 0);
    assert_eq!(short, [7u8; 8]);
}

#[test]
fn event_text_is_standard_base64() {
    let event = CounterEvent::CounterAuthorityIncreased(CounterAuthorityIncreased {
        new_count: 20,
    });
    let text = emit(&event).unwrap();
    assert_eq!(text, b"AxQAAAAAAAAA".to_vec());
    assert_eq!(
        text,
        base64::engine::general_purpose::STANDARD.encode(event.to_vec()).into_bytes()
    );
}

#[test]
fn event_text_is_padded() {
    let text = emit(&CounterInitialized { count: 19 }).unwrap();
    assert_eq!(text, b"EwAAAAAAAAA=".to_vec());
    assert_eq!(text.len() % 4, 0);
    assert_ne!(text, CounterInitialized { count: 19 }.to_vec());
}

#[test]
fn log_line_names_the_instruction_data() {
    assert_eq!(log_line(b"AxQAAAAAAAAA"), b"instruction data: AxQAAAAAAAAA".to_vec());
    assert_eq!(log_line(b""), b"instruction data: ".to_vec());
}

#[test]
fn largest_event_fills_the_text_buffer() {
    let text = encode_text(&[255u8; MAX_EVENT_SIZE]).unwrap();
    assert_eq!(text.len(), MAX_BASE64_SIZE);
    assert_eq!(
        text,
        base64::engine::general_purpose::STANDARD.encode(vec![255u8; 256]).into_bytes()
    );
    assert_eq!(encode_text(&[]).unwrap(), Vec::<u8>::new());
    assert_eq!(encode_text(&[1]).unwrap(), b"AQ==".to_vec());
    assert_eq!(encode_text(&[1, 2]).unwrap(), b"AQI=".to_vec());
    assert_eq!(encode_text(&[1, 2, 3]).unwrap(), b"AQID".to_vec());
    assert_eq!(encode_text(b"hello internet!").unwrap(), b"aGVsbG8gaW50ZXJuZXQh".to_vec());
}

#[test]
fn an_event_over_the_buffer_is_refused() {
    assert_eq!(encode_text(&[0u8; MAX_EVENT_SIZE + 1]), Err(ProgramError::EncodingOverflow));
    assert_eq!(encode_text(&[0u8; 1000]), Err(ProgramError::EncodingOverflow));
}
