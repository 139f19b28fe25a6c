use bufstream::{BufStream, ByteContainer};
use futures::Future;
use futures::Sink;
use futures::Stream;
use std::io::Result as IoResult;
use std::io::{Read, Write};
use tokio_core::io::{Codec, EasyBuf, Io};

/// Bridges the verified stream to the `std::io` traits that the framing
/// layer expects; every call goes straight through to the library.
struct Transport<T: ByteContainer>(BufStream<T>);

impl<T: ByteContainer> Transport<T> {
    fn into_inner(self) -> T {
        self.0.into_inner()
    }
}

impl<T: ByteContainer> Read for Transport<T> {
    fn read(&mut self, buf: &mut [u8]) -> IoResult<usize> {
        Ok(self.0.read(buf))
    }
}

impl<T: ByteContainer> Write for Transport<T> {
    fn write(&mut self, buf: &[u8]) -> IoResult<usize> {
        Ok(self.0.write(buf))
    }

    fn flush(&mut self) -> IoResult<()> {
        self.0.flush();
        Ok(())
    }
}

impl<T: ByteContainer> Io for Transport<T> {}

struct Byte;

impl Codec for Byte {
    type In = u8;
    type Out = String;

    fn decode(&mut self, buf: &mut EasyBuf) -> IoResult<Option<u8>> {
        let buf = buf.drain_to(1);
        Ok(Some(buf.as_slice()[0]))
    }

    fn encode(&mut self, msg: String, buf: &mut Vec<u8>) -> IoResult<()> {
        buf.extend_from_slice(msg.as_bytes());
        Ok(())
    }
}

#[test]
fn read_via_framed() {
    let result = Transport(BufStream::new(Vec::from("hello world")))
        .framed(Byte)
        .collect();

    assert_eq!(
        result.wait().expect("Ok result"),
        vec![104, 101, 108, 108, 111, 32, 119, 111, 114, 108, 100]
    );
}

#[test]
fn read_via_framed_mut_slice() {
    let mut buf = Vec::from("hello world");
    let result = Transport(BufStream::new(buf.as_mut_slice()))
        .framed(Byte)
        .collect();

    assert_eq!(
        result.wait().expect("Ok result"),
        vec![104, 101, 108, 108, 111, 32, 119, 111, 114, 108, 100]
    );
}

#[test]
fn write_via_framed() {
    let result = Transport(BufStream::new(Vec::new()))
        .framed(Byte)
        .send("hello world".to_string());

    let encoder = result.wait().expect("Ok result").into_inner();
    assert_eq!(
        encoder.into_inner(),
        vec![104, 101, 108, 108, 111, 32, 119, 111, 114, 108, 100]
    );
}

#[test]
fn write_via_framed_mut_slice() {
    let mut buf = vec![0; 11];
    let result = Transport(BufStream::new(buf.as_mut_slice()))
        .framed(Byte)
        .send("hello world".to_string());

    let encoder = result.wait().expect("Ok result").into_inner();
    assert_eq!(
        encoder.into_inner(),
        [104, 101, 108, 108, 111, 32, 119, 111, 114, 108, 100]
    );
}
