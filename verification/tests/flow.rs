use std::collections::VecDeque;
use std::io;
use std::io::{Read, Write};

use webservice::connection::REQUEST_BUFFER_SIZE;
use webservice::{
    ConnectionError, HTTPMethod, HTTPResponse, HTTPServer, ReadEvent, ReadRetry, ReadStep,
    RouteTable, HTTP_CONTENT_404,
};

type Handle = Box<dyn Fn() -> io::Result<HTTPResponse> + Sync + Send>;
type Executor = Box<dyn FnMut(Box<dyn FnOnce() + Send>)>;

/// A stream that answers each read as the script says, and keeps what is
/// written to it.
struct Scripted {
    reads: VecDeque<io::Result<&'static [u8]>>,
    attempts: usize,
    written: Vec<u8>,
    flushed: bool,
}

impl Scripted {
    fn new(reads: Vec<io::Result<&'static [u8]>>) -> Scripted {
        Scripted { reads: reads.into(), attempts: 0, written: Vec::new(), flushed: false }
    }
}

impl Read for Scripted {
    fn read(&mut self, buffer: &mut [u8]) -> io::Result<usize> {
        self.attempts += 1;
        match self.reads.pop_front() {
            Some(Ok(bytes)) => {
                buffer[..bytes.len()].copy_from_slice(bytes);
                Ok(bytes.len())
            }
            Some(Err(e)) => Err(e),
            None => Err(io::Error::from(io::ErrorKind::WouldBlock)),
        }
    }
}

impl Write for Scripted {
    fn write(&mut self, bytes: &[u8]) -> io::Result<usize> {
        self.written.extend_from_slice(bytes);
        Ok(bytes.len())
    }

    fn flush(&mut self) -> io::Result<()> {
        self.flushed = true;
        Ok(())
    }
}

fn would_block() -> io::Result<&'static [u8]> {
    Err(io::Error::from(io::ErrorKind::WouldBlock))
}

/// One connection, as a program serves it: read, answer, write.
fn serve(routes: &RouteTable<Handle>, stream: &mut Scripted) -> io::Result<()> {
    let mut buffer = [0; REQUEST_BUFFER_SIZE];
    let mut retry = ReadRetry::new();
    loop {
        let read = stream.read(&mut buffer);
        let event = match &read {
            Ok(_) => ReadEvent::Data,
            Err(e) => match e.kind() {
                io::ErrorKind::WouldBlock => ReadEvent::WouldBlock,
                io::ErrorKind::Interrupted => ReadEvent::Interrupted,
                _ => ReadEvent::Failed,
            },
        };
        match retry.next(event) {
            ReadStep::Proceed => break,
            ReadStep::Retry => (),
            ReadStep::Abort => return read.map(|_| ()),
        }
    }
    let content = match routes.respond(&buffer) {
        Ok(content) => content,
        Err(ConnectionError::InvalidInput) => {
            return Err(io::Error::from(io::ErrorKind::InvalidInput))
        }
        Err(ConnectionError::Io(e)) => return Err(e),
    };
    stream.write_all(&content)?;
    stream.flush()
}

fn routes() -> RouteTable<Handle> {
    let mut server: HTTPServer<Handle, Executor> = HTTPServer::new();
    server.add_handle(
        HTTPMethod::Get,
        "/",
        Box::new(|| Ok(HTTPResponse::new(200).with_content("Hello, World!"))),
    );
    server.add_handle(HTTPMethod::Get, "/forbidden", Box::new(|| Ok(HTTPResponse::new(403))));
    server.add_handle(
        HTTPMethod::Post,
        "/broken",
        Box::new(|| Err(io::Error::from(io::ErrorKind::NotFound))),
    );
    server.into_parts().0
}

#[test]
fn test_connection_is_answered() {
    let mut stream = Scripted::new(vec![Ok(b"GET / HTTP/1.1\r\nHost: localhost\r\n\r\n")]);
    assert!(serve(&routes(), &mut stream).is_ok());
    assert_eq!(stream.attempts, 1);
    assert_eq!(
        stream.written,
        b"HTTP/1.1 200\r\nContent-Length: 13\r\n\r\nHello, World!".to_vec()
    );
    assert!(stream.flushed);
}

#[test]
fn test_connection_without_content() {
    let mut stream = Scripted::new(vec![Ok(b"GET /forbidden HTTP/1.1\r\n\r\n")]);
    assert!(serve(&routes(), &mut stream).is_ok());
    assert_eq!(stream.written, b"HTTP/1.1 403\r\n\r\n".to_vec());
}

#[test]
fn test_connection_to_unregistered_path() {
    let mut stream = Scripted::new(vec![Ok(b"GET /nowhere HTTP/1.1\r\n\r\n")]);
    assert!(serve(&routes(), &mut stream).is_ok());
    let expected = format!(
        "HTTP/1.1 404\r\nContent-Length: {}\r\n\r\n{}",
        HTTP_CONTENT_404.len(),
        HTTP_CONTENT_404
    );
    assert_eq!(stream.written, expected.into_bytes());
}

#[test]
fn test_connection_waits_for_the_request() {
    let mut stream = Scripted::new(vec![
        would_block(),
        Err(io::Error::from(io::ErrorKind::Interrupted)),
        would_block(),
        Ok(b"GET /forbidden HTTP/1.1\r\n\r\n"),
    ]);
    assert!(serve(&routes(), &mut stream).is_ok());
    assert_eq!(stream.attempts, 4);
    assert_eq!(stream.written, b"HTTP/1.1 403\r\n\r\n".to_vec());
}

#[test]
fn test_connection_gives_up_waiting() {
    let mut stream = Scripted::new(Vec::new());
    let result = serve(&routes(), &mut stream);
    assert_eq!(result.err().map(|e| e.kind()), Some(io::ErrorKind::InvalidInput));
    assert_eq!(stream.attempts, 16);
    assert!(stream.written.is_empty());
}

#[test]
fn test_connection_answers_the_last_attempt() {
    let mut reads: Vec<io::Result<&'static [u8]>> = Vec::new();
    for _ in 0..15 {
        reads.push(would_block());
    }
    reads.push(Ok(b"GET /forbidden HTTP/1.1\r\n\r\n"));
    let mut stream = Scripted::new(reads);
    assert!(serve(&routes(), &mut stream).is_ok());
    assert_eq!(stream.attempts, 16);
    assert_eq!(stream.written, b"HTTP/1.1 403\r\n\r\n".to_vec());
}

#[test]
fn test_connection_with_failing_read() {
    let mut stream = Scripted::new(vec![
        would_block(),
        Err(io::Error::from(io::ErrorKind::ConnectionReset)),
        Ok(b"GET / HTTP/1.1\r\n\r\n"),
    ]);
    let result = serve(&routes(), &mut stream);
    assert_eq!(result.err().map(|e| e.kind()), Some(io::ErrorKind::ConnectionReset));
    assert_eq!(stream.attempts, 2);
    assert!(stream.written.is_empty());
}

#[test]
fn test_connection_with_empty_read() {
    let mut stream = Scripted::new(vec![Ok(b"")]);
    let result = serve(&routes(), &mut stream);
    assert_eq!(result.err().map(|e| e.kind()), Some(io::ErrorKind::InvalidInput));
    assert!(stream.written.is_empty());
}

#[test]
fn test_connection_with_failing_handle() {
    let mut stream = Scripted::new(vec![Ok(b"POST /broken HTTP/1.1\r\n\r\n")]);
    let result = serve(&routes(), &mut stream);
    assert_eq!(result.err().map(|e| e.kind()), Some(io::ErrorKind::NotFound));
    assert!(stream.written.is_empty());
}
