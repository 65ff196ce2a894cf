//! Tests of the conversion shim: the immediately-ready wrapper and the two
//! conversion capabilities.

use implicit_await::as_future::{ready, FutureAsFuture, NonFutureAsFuture, Ready};

#[test]
fn ready_yields_its_value_on_first_poll() {
    let mut r = ready(5u64);
    assert_eq!(r.poll_once(), 5u64);
}

#[test]
fn ready_reports_pending_until_polled() {
    let mut r = ready(9u32);
    assert!(r.is_pending());
    let _ = r.poll_once();
    assert!(!r.is_pending());
}

#[test]
fn plain_number_wraps_as_immediately_ready() {
    let mut r = 42u64.as_future();
    assert_eq!(r.poll_once(), 42u64);
}

#[test]
fn signed_number_wraps_as_immediately_ready() {
    let mut r = (-7i64).as_future();
    assert_eq!(r.poll_once(), -7i64);
}

#[test]
fn bool_and_char_and_unit_wrap_as_immediately_ready() {
    let mut b = true.as_future();
    assert_eq!(b.poll_once(), true);
    let mut c = 'x'.as_future();
    assert_eq!(c.poll_once(), 'x');
    let mut u = ().as_future();
    assert_eq!(u.poll_once(), ());
}

#[test]
fn string_wraps_as_immediately_ready() {
    let mut s = String::from("hello").as_future();
    assert_eq!(s.poll_once(), String::from("hello"));
}

#[test]
fn option_wraps_generically() {
    let mut some = Some(3u8).as_future();
    assert_eq!(some.poll_once(), Some(3u8));
    let mut none: Ready<Option<u8>> = None::<u8>.as_future();
    assert_eq!(none.poll_once(), None::<u8>);
}

#[test]
fn result_wraps_generically() {
    let mut ok: Ready<Result<u32, ()>> = Ok::<u32, ()>(4).as_future();
    assert_eq!(ok.poll_once(), Ok(4));
    let mut err: Ready<Result<u32, ()>> = Err::<u32, ()>(()).as_future();
    assert_eq!(err.poll_once(), Err(()));
}

#[test]
fn buffered_reader_wraps_as_immediately_ready() {
    let reader = std::io::BufReader::new(&b"ok"[..]);
    let mut r = reader.as_future();
    let mut restored = r.poll_once();
    let mut out = String::new();
    std::io::Read::read_to_string(&mut restored, &mut out).unwrap();
    assert_eq!(out, "ok");
}

#[test]
fn already_awaitable_value_converts_to_itself() {
    let mut r = ready(7u64).as_future();
    assert_eq!(r.poll_once(), 7u64);
}

#[test]
fn sum_of_six_values_through_the_shim_is_twenty_one() {
    // A function summing six values: a plain helper, a helper that returns an
    // already-awaitable value, and an asynchronous helper; three of the six
    // are constructed in a deferred style (no suspension at construction) and
    // resolved together afterwards, and one further value is resolved with an
    // explicit poll.
    fn num_sync(n: u64) -> u64 {
        n
    }
    fn num_fut(n: u64) -> Ready<u64> {
        ready(n)
    }
    fn num_async(n: u64) -> Ready<u64> {
        ready(n)
    }
    // Implicitly suspended calls: convert, then resolve at once.
    let one = num_sync(1).as_future().poll_once();
    let two = num_fut(2).as_future().poll_once();
    let three = num_async(3).as_future().poll_once();
    // Deferred region: construct without resolving.
    let (mut four, mut five, mut six) = (num_fut(4), num_async(5), num_async(6));
    // Join the first two, then resolve the last with an explicit poll.
    let (four, five) = (four.poll_once(), five.poll_once());
    let six = six.poll_once();
    assert_eq!(one + two + three + four + five + six, 21);
}
