use byte_pipeline::reader::{ReadOutcome, Reader};
use byte_pipeline::stage::{Component, Progress};
use byte_pipeline::transform::Transformer;
use byte_pipeline::writer::Writer;
use std::io::{Error, ErrorKind};

fn byte(value: u8) -> ReadOutcome {
    ReadOutcome { count: Ok(1), byte: value }
}

#[test]
fn transform_complements_the_named_bytes() {
    assert_eq!(Transformer::transform(0x00), 0xFF);
    assert_eq!(Transformer::transform(0xFF), 0x00);
    assert_eq!(Transformer::transform(0x0F), 0xF0);
    assert_eq!(Transformer::transform(0xAA), 0x55);
}

#[test]
fn transform_is_255_minus_the_byte_for_every_byte() {
    for b in 0..=255u8 {
        assert_eq!(Transformer::transform(b), 255 - b);
    }
}

#[test]
fn transform_twice_gives_the_byte_back() {
    for b in 0..=255u8 {
        assert_eq!(Transformer::transform(Transformer::transform(b)), b);
    }
}

#[test]
fn transformer_starts_empty() {
    let mut stage = Transformer::new();
    assert_eq!(stage.get_output(), Vec::<u8>::new());
    assert_eq!(stage.process(()).unwrap(), Progress::Complete);
    assert_eq!(stage.get_output(), Vec::<u8>::new());
}

#[test]
fn transformer_keeps_the_order() {
    let mut stage = Transformer::new();
    stage.set_input(vec![0x01, 0x02, 0x03]);
    assert_eq!(stage.process(()).unwrap(), Progress::Complete);
    assert_eq!(stage.get_output(), vec![0xFE, 0xFD, 0xFC]);
}

#[test]
fn transformer_keeps_the_length() {
    for len in [0usize, 1, 2, 7, 256, 1000] {
        let input: Vec<u8> = (0..len).map(|i| (i % 251) as u8).collect();
        let mut stage = Transformer::new();
        stage.set_input(input.clone());
        stage.process(()).unwrap();
        let output = stage.get_output();
        assert_eq!(output.len(), len);
        for i in 0..len {
            assert_eq!(output[i], 255 - input[i]);
        }
    }
}

#[test]
fn transformer_twice_gives_the_sequence_back() {
    let input: Vec<u8> = (0..=255u8).rev().collect();
    let mut first = Transformer::new();
    first.set_input(input.clone());
    first.process(()).unwrap();
    let mut second = Transformer::new();
    second.set_input(first.get_output());
    second.process(()).unwrap();
    assert_eq!(second.get_output(), input);
}

#[test]
fn transformer_set_input_replaces_the_input() {
    let mut stage = Transformer::new();
    stage.set_input(vec![1, 2, 3, 4]);
    stage.set_input(vec![0x10]);
    stage.process(()).unwrap();
    assert_eq!(stage.get_output(), vec![0xEF]);
}

#[test]
fn transformer_keeps_its_input_after_process() {
    let mut stage = Transformer::new();
    stage.set_input(vec![0x00, 0x80]);
    stage.process(()).unwrap();
    assert_eq!(stage.get_output(), vec![0xFF, 0x7F]);
    stage.process(()).unwrap();
    assert_eq!(stage.get_output(), vec![0xFF, 0x7F]);
}

#[test]
fn transformer_second_drain_is_empty() {
    let mut stage = Transformer::new();
    stage.set_input(vec![9, 8, 7]);
    stage.process(()).unwrap();
    assert_eq!(stage.get_output(), vec![246, 247, 248]);
    assert_eq!(stage.get_output(), Vec::<u8>::new());
}

#[test]
fn reader_starts_empty() {
    let mut stage = Reader::new();
    assert_eq!(stage.get_output(), Vec::<u8>::new());
}

#[test]
fn reader_gathers_in_order_of_arrival() {
    let mut stage = Reader::new();
    assert_eq!(stage.process(byte(0x30)).unwrap(), Progress::Pending);
    assert_eq!(stage.process(byte(0x10)).unwrap(), Progress::Pending);
    assert_eq!(stage.process(byte(0x20)).unwrap(), Progress::Pending);
    assert_eq!(stage.get_output(), vec![0x30, 0x10, 0x20]);
}

#[test]
fn reader_completes_at_the_end_of_the_stream() {
    let mut stage = Reader::new();
    stage.process(byte(5)).unwrap();
    let end = ReadOutcome { count: Ok(0), byte: 99 };
    assert_eq!(stage.process(end).unwrap(), Progress::Complete);
    assert_eq!(stage.get_output(), vec![5]);
}

#[test]
fn reader_takes_any_count_but_zero_for_one_byte() {
    let mut stage = Reader::new();
    let outcome = ReadOutcome { count: Ok(3), byte: 0x41 };
    assert_eq!(stage.process(outcome).unwrap(), Progress::Pending);
    assert_eq!(stage.get_output(), vec![0x41]);
}

#[test]
fn reader_hands_on_the_error_of_a_read() {
    let mut stage = Reader::new();
    stage.process(byte(1)).unwrap();
    let failed = ReadOutcome {
        count: Err(Error::new(ErrorKind::PermissionDenied, "no entry")),
        byte: 2,
    };
    let error = stage.process(failed).unwrap_err();
    assert_eq!(error.kind(), ErrorKind::PermissionDenied);
    assert_eq!(error.to_string(), "no entry");
    assert_eq!(stage.get_output(), vec![1]);
}

#[test]
fn reader_does_not_retry_an_interrupted_read() {
    let mut stage = Reader::new();
    let failed = ReadOutcome { count: Err(Error::from(ErrorKind::Interrupted)), byte: 0 };
    assert_eq!(stage.process(failed).unwrap_err().kind(), ErrorKind::Interrupted);
}

#[test]
fn reader_second_drain_is_empty() {
    let mut stage = Reader::new();
    stage.process(byte(1)).unwrap();
    stage.process(byte(2)).unwrap();
    assert_eq!(stage.get_output(), vec![1, 2]);
    assert_eq!(stage.get_output(), Vec::<u8>::new());
    stage.process(byte(3)).unwrap();
    assert_eq!(stage.get_output(), vec![3]);
}

#[test]
fn writer_starts_empty() {
    let stage = Writer::new();
    assert_eq!(stage.pending(), &Vec::<u8>::new());
}

#[test]
fn writer_holds_what_it_was_given() {
    let mut stage = Writer::new();
    stage.set_input(vec![3, 1, 2]);
    assert_eq!(stage.pending(), &vec![3, 1, 2]);
    stage.set_input(vec![7]);
    assert_eq!(stage.pending(), &vec![7]);
}

#[test]
fn writer_completes_when_the_write_went_through() {
    let mut stage = Writer::new();
    stage.set_input(vec![1, 2]);
    assert_eq!(stage.process(Ok(())).unwrap(), Progress::Complete);
    assert_eq!(stage.pending(), &vec![1, 2]);
}

#[test]
fn writer_hands_on_the_error_of_the_write() {
    let mut stage = Writer::new();
    stage.set_input(vec![1, 2]);
    let error = stage.process(Err(Error::new(ErrorKind::BrokenPipe, "closed"))).unwrap_err();
    assert_eq!(error.kind(), ErrorKind::BrokenPipe);
    assert_eq!(error.to_string(), "closed");
    assert_eq!(stage.pending(), &vec![1, 2]);
}
