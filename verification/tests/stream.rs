use common_stream::ident;
use common_stream::SendSyncStream;
use common_stream::Stream;
use common_stream::Transformed;
use common_stream::UnRead;
use std::char::decode_utf16;
use std::fmt::Debug;

fn rest_as_string<I, T, E, F>(s: &mut Transformed<I, T, char, E, F>) -> String
where
    I: Iterator<Item = T>,
    F: FnMut(T) -> Result<char, E>,
    E: Debug,
{
    let mut out = String::new();
    while let Some(ch) = s.next() {
        out.push(ch.unwrap());
    }
    out
}

#[test]
fn unread_all() {
    let s = [0x006d, 0x0075, 0x0073, 0x0069, 0x0063].iter().cloned();
    let mut s = Transformed::new(decode_utf16(s), ident);
    let mut list = std::collections::VecDeque::<char>::new();

    let ch = s.next().map(Result::ok).unwrap().unwrap();
    assert_eq!('m', ch);
    list.push_back(ch);

    let ch = s.next().map(Result::ok).unwrap().unwrap();
    assert_eq!('u', ch);
    list.push_back(ch);

    let ch = s.next().map(Result::ok).unwrap().unwrap();
    assert_eq!('s', ch);
    list.push_back(ch);

    let ch = s.next().map(Result::ok).unwrap().unwrap();
    assert_eq!('i', ch);
    list.push_back(ch);

    let ch = s.next().map(Result::ok).unwrap().unwrap();
    assert_eq!('c', ch);
    list.push_back(ch);

    s.unread_from_tokens(Vec::from(list));
    assert_eq!(String::from("cisum"), rest_as_string(&mut s));

    assert!(s.next().is_none());
}

#[test]
fn stream_from_iter_decode_identify() {
    let s = [0x006d, 0x0075, 0x0073, 0x0069, 0x0063].iter().cloned();
    let mut s = Transformed::new(decode_utf16(s), ident);

    assert_eq!(String::from("music"), rest_as_string(&mut s));
}

#[test]
fn stream_from_iter_infallible() {
    let mut s =
        Transformed::<_, char, _, std::convert::Infallible, _>::new("music".chars(), Result::Ok);

    assert_eq!(String::from("music"), rest_as_string(&mut s));
}

fn consume_send_sync_stream<TK, E>(_stream: impl SendSyncStream<TK, E>) {}

#[test]
fn pass_send_sync_stream_trait() {
    let s = Transformed::new(
        std::iter::empty::<Result<u8, std::convert::Infallible>>(),
        ident,
    );
    consume_send_sync_stream(s);
}

fn pull_all<TK, E: Debug>(stream: &mut impl Stream<TK, E>) -> Vec<TK> {
    let mut out = Vec::new();
    while let Some(token) = stream.pull() {
        out.push(token.unwrap());
    }
    out
}

#[test]
fn a_transformed_stream_is_pulled_through_the_trait() {
    let mut s = Transformed::new(decode_utf16([0x0068u16, 0x0069].iter().cloned()), ident);
    s.unread('!');
    assert_eq!(vec!['!', 'h', 'i'], pull_all(&mut s));
    assert!(s.pull().is_none());
}

#[test]
fn an_iterator_over_results_is_pulled_through_the_trait() {
    let mut results = vec![Ok::<u8, String>(1), Ok(2), Ok(3)].into_iter();
    assert_eq!(Some(Ok(1)), results.pull());
    assert_eq!(vec![2, 3], pull_all(&mut results));
    assert_eq!(None, results.pull());
}

#[test]
fn an_error_from_an_iterator_comes_through_the_trait_unchanged() {
    let mut results = vec![Ok::<u8, String>(1), Err(String::from("bad")), Ok(3)].into_iter();
    assert_eq!(Some(Ok(1)), results.pull());
    assert_eq!(Some(Err(String::from("bad"))), results.pull());
    assert_eq!(Some(Ok(3)), results.pull());
    assert_eq!(None, results.pull());
}

#[test]
fn ident_returns_its_argument() {
    assert_eq!(42, ident(42));
    assert_eq!("token", ident("token"));
    assert_eq!(Err::<u8, &str>("e"), ident(Err::<u8, &str>("e")));
}
