//! Tests of the buffered, repeatable primary-input source and its
//! independent cursors.

use bundle_resolve::BufferedPrimaryIo;
use bundle_resolve::GenuineStdoutIo;
use bundle_resolve::InputCursor;
use bundle_resolve::SeekAt;
use bundle_resolve::SharedByteBuffer;
use bundle_resolve::StreamError;
use bundle_resolve::StreamOpen;

fn open_cursor(io: &mut BufferedPrimaryIo) -> InputCursor {
    match io.input_open_primary() {
        StreamOpen::Opened(cursor) => cursor,
        _ => panic!("primary input must always be served"),
    }
}

#[test]
fn from_text_buffers_utf8_bytes() {
    let mut io = BufferedPrimaryIo::from_text("hello");
    let mut cursor = open_cursor(&mut io);
    assert_eq!(cursor.get_size(), 5);
    assert_eq!(cursor.read_remaining(), b"hello".to_vec());
}

#[test]
fn from_bytes_round_trips() {
    let data = vec![0u8, 155, 7, 42];
    let mut io = BufferedPrimaryIo::from_bytes(data.clone());
    let mut cursor = open_cursor(&mut io);
    assert_eq!(cursor.read_remaining(), data);
}

#[test]
fn two_cursors_read_identical_bytes() {
    // Opening the primary input twice yields two independent cursors that
    // each read the same full byte sequence.
    let mut io = BufferedPrimaryIo::from_text("\\input plain\nHello.\n\\bye\n");
    let mut first = open_cursor(&mut io);
    let mut second = open_cursor(&mut io);
    let a = first.read_remaining();
    let b = second.read_remaining();
    assert_eq!(a, b);
    assert_eq!(a, b"\\input plain\nHello.\n\\bye\n".to_vec());
}

#[test]
fn seek_on_one_cursor_leaves_the_other_alone() {
    let mut io = BufferedPrimaryIo::from_text("abcdef");
    let mut first = open_cursor(&mut io);
    let mut second = open_cursor(&mut io);
    first.try_seek(SeekAt::Start(4)).unwrap();
    // `second` still reads from the start in full.
    assert_eq!(second.read_remaining(), b"abcdef".to_vec());
    // And `first` reads only the tail it was seeked to.
    assert_eq!(first.read_remaining(), b"ef".to_vec());
}

#[test]
fn seek_start_end_current() {
    let mut io = BufferedPrimaryIo::from_text("abcdef");
    let mut cursor = open_cursor(&mut io);
    assert_eq!(cursor.try_seek(SeekAt::Start(2)), Ok(2));
    assert_eq!(cursor.try_seek(SeekAt::Current(1)), Ok(3));
    assert_eq!(cursor.try_seek(SeekAt::Current(-2)), Ok(1));
    assert_eq!(cursor.try_seek(SeekAt::End(-1)), Ok(5));
    assert_eq!(cursor.read_remaining(), b"f".to_vec());
    assert_eq!(cursor.try_seek(SeekAt::End(0)), Ok(6));
    assert!(cursor.read_remaining().is_empty());
}

#[test]
fn seek_before_start_is_refused_and_position_kept() {
    let mut io = BufferedPrimaryIo::from_text("abc");
    let mut cursor = open_cursor(&mut io);
    assert_eq!(cursor.try_seek(SeekAt::Start(1)), Ok(1));
    assert_eq!(
        cursor.try_seek(SeekAt::Current(-5)),
        Err(StreamError::SeekOutOfRange)
    );
    // The failed seek left the cursor where it stood.
    assert_eq!(cursor.read_remaining(), b"bc".to_vec());
}

#[test]
fn seek_past_end_reads_empty() {
    let mut io = BufferedPrimaryIo::from_text("abc");
    let mut cursor = open_cursor(&mut io);
    assert_eq!(cursor.try_seek(SeekAt::Start(10)), Ok(10));
    assert!(cursor.read_remaining().is_empty());
    // Size is unaffected by the cursor's position.
    assert_eq!(cursor.get_size(), 3);
}

#[test]
fn shared_buffer_shares_without_copying_semantics() {
    let buffer = SharedByteBuffer::new(vec![9u8, 8, 7]);
    let other = buffer.share();
    assert_eq!(buffer.bytes(), other.bytes());
    assert_eq!(other.bytes().as_slice(), &[9u8, 8, 7]);
}

#[test]
fn genuine_stdout_io_constructs() {
    let a = GenuineStdoutIo::new();
    let b = GenuineStdoutIo::new();
    assert_eq!(a, b);
}

#[test]
fn empty_primary_input_is_served_and_empty() {
    let mut io = BufferedPrimaryIo::from_text("");
    let mut cursor = open_cursor(&mut io);
    assert_eq!(cursor.get_size(), 0);
    assert!(cursor.read_remaining().is_empty());
}
