use git_lfs_cache::channel::{
    new_in, Advance, Broken, Channel, Cursor, Poll, Published, State, Transition, Writer,
};
use rand::Rng;

/// The file of a channel and what its writer has published.
struct File {
    bytes: Vec<u8>,
    unflushed: Vec<u8>,
    published: Published,
    closed: bool,
}

impl File {
    fn new(published: Published) -> File {
        File { bytes: Vec::new(), unflushed: Vec::new(), published, closed: false }
    }

    fn write(&mut self, writer: &mut Writer, data: &[u8]) {
        self.bytes.extend_from_slice(data);
        self.published = writer.write(data);
    }

    fn write_buffered(&mut self, writer: &mut Writer, data: &[u8]) {
        self.unflushed.extend_from_slice(data);
        self.published = writer.write(data);
    }

    fn flush(&mut self) {
        let unflushed = std::mem::take(&mut self.unflushed);
        self.bytes.extend_from_slice(&unflushed);
    }

    fn reset(&mut self, writer: &mut Writer) {
        self.flush();
        self.bytes.clear();
        self.published = writer.reset();
    }

    fn finish(&mut self, writer: Writer) {
        self.flush();
        self.published = writer.finish();
        self.closed = true;
    }

    fn drop_writer(&mut self, writer: Writer) {
        drop(writer);
        self.unflushed.clear();
        self.closed = true;
    }
}

/// One stream and the bytes that it has handed on.
struct Body {
    cursor: Cursor,
    bytes: Vec<u8>,
    outcome: Option<Result<(), Broken>>,
}

impl Body {
    fn open(channel_reader: &git_lfs_cache::channel::Reader) -> Body {
        Body { cursor: channel_reader.stream(), bytes: Vec::new(), outcome: None }
    }

    /// Runs the stream until it waits, ends or fails, reading blocks of at
    /// most `block` bytes.
    fn pump(&mut self, file: &File, block: usize) {
        while self.outcome.is_none() {
            match self.cursor.poll(file.published, file.closed) {
                Poll::Read => {
                    let from = std::cmp::min(self.cursor.position as usize, file.bytes.len());
                    let to = std::cmp::min(from + block, file.bytes.len());
                    let data = &file.bytes[from..to];
                    match self.cursor.advance(data.len(), file.closed) {
                        Advance::Emit => self.bytes.extend_from_slice(data),
                        Advance::Wait => return,
                        Advance::Fail(b) => self.outcome = Some(Err(b)),
                    }
                }
                Poll::Wait => return,
                Poll::End => self.outcome = Some(Ok(())),
                Poll::Fail(b) => self.outcome = Some(Err(b)),
            }
        }
    }
}

fn start(size: u64) -> (Channel, Writer, git_lfs_cache::channel::Reader, File) {
    let mut channel = new_in(size);
    let (writer, reader) = channel.init();
    let file = File::new(writer.state());
    (channel, writer, reader, file)
}

#[test]
fn tests_test() {
    let (mut channel, mut writer, reader, mut file) = start(11);
    let mut body_0 = Body::open(&reader);
    file.write(&mut writer, b"hello");
    body_0.pump(&file, 3);
    let mut body_1 = Body::open(&reader);
    file.write(&mut writer, b" world");
    body_1.pump(&file, 4);
    let mut body_2 = Body::open(&reader);
    file.finish(writer);
    assert!(channel.record(Transition::Finish));
    for body in [&mut body_0, &mut body_1, &mut body_2] {
        body.pump(&file, 5);
        assert_eq!(body.outcome, Some(Ok(())));
        assert_eq!(body.bytes, b"hello world");
    }
    assert_eq!(file.bytes, b"hello world");
    assert_eq!(channel.keep(), State::Kept);
}

#[test]
fn tests_test_drop() {
    let (channel, mut writer, reader, mut file) = start(11);
    let mut body_0 = Body::open(&reader);
    file.write(&mut writer, b"hello");
    body_0.pump(&file, 2);
    let mut body_1 = Body::open(&reader);
    file.write(&mut writer, b" world");
    let mut body_2 = Body::open(&reader);
    file.drop_writer(writer);
    assert!(channel.current().unlinks());
    assert_eq!(channel.keep(), State::Discarded);
    for body in [&mut body_0, &mut body_1, &mut body_2] {
        body.pump(&file, 5);
        assert_eq!(body.outcome, Some(Err(Broken::Pipe)));
    }
    let mut late = Body::open(&reader);
    late.pump(&file, 5);
    assert_eq!(late.outcome, Some(Err(Broken::Pipe)));
}

#[test]
fn test_reset() {
    let (mut channel, mut writer, reader, mut file) = start(11);
    let mut body_0 = Body::open(&reader);
    file.write(&mut writer, b"hello");
    let mut body_1 = Body::open(&reader);
    assert!(channel.record(Transition::Truncate));
    file.reset(&mut writer);
    assert!(channel.record(Transition::Publish));
    let mut body_2 = Body::open(&reader);
    file.write(&mut writer, b"hello world");
    file.finish(writer);
    assert!(channel.record(Transition::Finish));
    for body in [&mut body_0, &mut body_1, &mut body_2] {
        body.pump(&file, 4);
        assert_eq!(body.outcome, Some(Ok(())));
        assert_eq!(body.bytes, b"hello world");
    }
    assert_eq!(file.bytes, b"hello world");
    assert_eq!(channel.keep(), State::Kept);
}

#[test]
fn tests_test_large() {
    let mut rng = rand::thread_rng();
    let mut data = vec![0u8; 1 << 24];
    rng.fill(&mut data[..]);

    let (mut channel, mut writer, reader, mut file) = start(data.len() as u64);
    let mut body_0 = Body::open(&reader);
    let mut pos = 0;
    while pos < data.len() {
        let size = std::cmp::min(rng.gen_range(1..1 << 16), data.len() - pos);
        file.write(&mut writer, &data[pos..pos + size]);
        pos += size;
        if rng.gen_range(0..4) == 0 {
            body_0.pump(&file, 1 << 13);
        }
    }
    let mut body_1 = Body::open(&reader);
    file.finish(writer);
    assert!(channel.record(Transition::Finish));
    body_0.pump(&file, 1 << 13);
    body_1.pump(&file, 1 << 15);
    assert_eq!(channel.keep(), State::Kept);
    assert!(file.bytes == data);
    assert_eq!(body_0.outcome, Some(Ok(())));
    assert_eq!(body_1.outcome, Some(Ok(())));
    assert!(body_0.bytes == data);
    assert!(body_1.bytes == data);
}

#[test]
fn reader_that_has_read_fails_after_reset() {
    let (_channel, mut writer, reader, mut file) = start(11);
    let mut early = Body::open(&reader);
    let mut idle = Body::open(&reader);
    file.write(&mut writer, b"hello");
    early.pump(&file, 2);
    assert_eq!(early.bytes, b"hello");
    assert_eq!(early.outcome, None);
    file.reset(&mut writer);
    assert_eq!(file.published, Published { length: 0, eof: false, generation: 1 });
    file.write(&mut writer, b"bye");
    file.finish(writer);
    early.pump(&file, 2);
    assert_eq!(early.outcome, Some(Err(Broken::Reset)));
    idle.pump(&file, 2);
    assert_eq!(idle.outcome, Some(Ok(())));
    assert_eq!(idle.bytes, b"bye");
    let mut late = Body::open(&reader);
    late.pump(&file, 2);
    assert_eq!(late.outcome, Some(Ok(())));
    assert_eq!(late.bytes, b"bye");
}

#[test]
fn reader_waits_while_the_file_lags_behind() {
    let (_channel, mut writer, reader, mut file) = start(5);
    let mut body = Body::open(&reader);
    file.write_buffered(&mut writer, b"hello");
    assert_eq!(file.published.length, 5);
    body.pump(&file, 8);
    assert_eq!(body.outcome, None);
    assert!(body.bytes.is_empty());
    file.finish(writer);
    body.pump(&file, 8);
    assert_eq!(body.outcome, Some(Ok(())));
    assert_eq!(body.bytes, b"hello");
}

#[test]
fn unflushed_bytes_of_a_dropped_writer_break_the_pipe() {
    let (_channel, mut writer, reader, mut file) = start(5);
    let mut body = Body::open(&reader);
    file.write_buffered(&mut writer, b"hello");
    file.drop_writer(writer);
    body.pump(&file, 8);
    assert_eq!(body.outcome, Some(Err(Broken::Pipe)));
}

#[test]
fn cursor_decides_by_what_is_published() {
    let seen = Published { length: 5, eof: false, generation: 0 };
    let mut cursor = Cursor { position: 0, generation: 0 };
    assert_eq!(cursor.poll(seen, false), Poll::Read);
    assert_eq!(cursor.advance(5, false), Advance::Emit);
    assert_eq!(cursor.position, 5);
    assert_eq!(cursor.poll(seen, false), Poll::Wait);
    assert_eq!(cursor.poll(seen, true), Poll::Fail(Broken::Pipe));
    assert_eq!(cursor.poll(Published { eof: true, ..seen }, true), Poll::End);
    assert_eq!(cursor.poll(Published { generation: 1, ..seen }, false), Poll::Fail(Broken::Reset));
    assert_eq!(cursor.advance(0, false), Advance::Wait);
    assert_eq!(cursor.advance(0, true), Advance::Fail(Broken::Pipe));
    let mut fresh = Cursor { position: 0, generation: 0 };
    assert_eq!(fresh.poll(Published { length: 0, eof: false, generation: 7 }, false), Poll::Wait);
    assert_eq!(fresh.generation, 7);
}

#[test]
fn channel_follows_its_life() {
    assert_eq!(State::Fresh.next(Transition::Init), Some(State::Open));
    assert_eq!(State::Open.next(Transition::Truncate), Some(State::ResetPending));
    assert_eq!(State::ResetPending.next(Transition::Publish), Some(State::Open));
    assert_eq!(State::Open.next(Transition::Finish), Some(State::Closed));
    assert_eq!(State::Closed.next(Transition::Keep), Some(State::Kept));
    assert_eq!(State::Open.next(Transition::Keep), None);
    assert_eq!(State::Kept.next(Transition::Drop), None);
    assert_eq!(State::Fresh.next(Transition::Drop), Some(State::Discarded));
    assert_eq!(State::Closed.next(Transition::Drop), Some(State::Discarded));
    assert!(!State::Kept.unlinks());
    assert!(State::Open.unlinks());

    let mut channel = new_in(3);
    assert_eq!(channel.declared_size(), 3);
    assert_eq!(channel.current(), State::Fresh);
    assert!(!channel.record(Transition::Finish));
    let (writer, _) = channel.init();
    assert_eq!(writer.state(), Published { length: 0, eof: false, generation: 0 });
    assert_eq!(channel.current(), State::Open);
    assert!(!channel.record(Transition::Keep));
    assert!(!channel.record(Transition::Drop));
    assert!(!channel.record(Transition::Init));
    assert!(!channel.record(Transition::Publish));
    assert!(channel.record(Transition::Truncate));
    assert_eq!(channel.current(), State::ResetPending);
    assert!(channel.record(Transition::Publish));
    assert_eq!(channel.keep(), State::Discarded);
}
