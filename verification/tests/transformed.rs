use common_stream::Transformed;
use std::collections::VecDeque;
use std::fmt;
use std::io;
use std::io::BufRead;
use std::io::BufReader;
use std::string::FromUtf8Error;

struct BufReadIter {
    reader: BufReader<VecDeque<u8>>,
}

impl FromIterator<u8> for BufReadIter {
    fn from_iter<T: IntoIterator<Item = u8>>(iter: T) -> Self {
        Self {
            reader: BufReader::new(VecDeque::from_iter(iter)),
        }
    }
}

impl Iterator for BufReadIter {
    type Item = Result<Vec<u8>, io::Error>;

    fn next(&mut self) -> Option<Self::Item> {
        let mut buf = Vec::with_capacity(80);
        match self.reader.read_until(0xA, &mut buf) {
            Ok(len) => {
                if len == 0 {
                    None
                } else {
                    let last = buf.pop();
                    assert!(last.is_some());
                    assert!(!buf.is_empty());
                    Some(Ok(buf))
                }
            }
            Err(err) => Some(Err(err)),
        }
    }
}

#[derive(Debug)]
pub enum TransformError {
    IoError(io::Error),
    FromUtf8Error(FromUtf8Error),
}

impl fmt::Display for TransformError {
    fn fmt(&self, f: &mut fmt::Formatter<'_>) -> fmt::Result {
        match self {
            TransformError::IoError(err) => f.write_str(&format!("{:?}", err)),
            TransformError::FromUtf8Error(err) => f.write_str(&format!("{:?}", err)),
        }
    }
}

impl std::error::Error for TransformError {}

impl From<io::Error> for TransformError {
    fn from(err: io::Error) -> Self {
        TransformError::IoError(err)
    }
}

impl From<FromUtf8Error> for TransformError {
    fn from(err: FromUtf8Error) -> Self {
        TransformError::FromUtf8Error(err)
    }
}

fn tranform(bytes: Result<Vec<u8>, io::Error>) -> Result<String, TransformError> {
    match bytes {
        Ok(bytes) => String::from_utf8(bytes).map_err(TransformError::from),
        Err(err) => Err(TransformError::from(err)),
    }
}

#[test]
fn utf8_encoded_stream_to_multi_string_stream() {
    let stream = "apple\u{0A}grape\u{0A}banana\u{0A}";
    let stream = BufReadIter::from_iter(stream.bytes());
    let mut stream = Transformed::new(stream, tranform);

    assert_eq!("apple", stream.next().unwrap().unwrap().as_str());
    assert_eq!("grape", stream.next().unwrap().unwrap().as_str());
    assert_eq!("banana", stream.next().unwrap().unwrap().as_str());
    assert!(stream.next().is_none());
}

#[test]
fn invalid_utf8_line_is_reported_and_the_next_line_still_decodes() {
    let bytes: Vec<u8> = vec![b'o', b'k', 0x0A, 0xFF, 0xFE, 0x0A, b'e', b'n', b'd', 0x0A];
    let stream = BufReadIter::from_iter(bytes);
    let mut stream = Transformed::new(stream, tranform);

    assert_eq!("ok", stream.next().unwrap().unwrap().as_str());
    match stream.next() {
        Some(Err(TransformError::FromUtf8Error(err))) => {
            assert_eq!(vec![0xFF, 0xFE], err.into_bytes());
        }
        other => panic!("expected a decode error, got {:?}", other),
    }
    assert_eq!("end", stream.next().unwrap().unwrap().as_str());
    assert!(stream.next().is_none());
}
