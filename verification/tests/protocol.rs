//! Behavioural checks of the wire format: request construction, the
//! error-encoding conversions, the message overlay, and the replies the
//! host hands back in the documented scenarios.

use sallyport::{Block, Message, Register, Reply, Request, BUF_CAPACITY};

#[test]
fn register_round_trip() {
    assert_eq!(Register::new(0xdead_beef).value(), 0xdead_beef);
    assert_eq!(Register::default().value(), 0);
    assert_eq!(Register::new(7), Register::new(7));
}

#[test]
fn request_round_trip() {
    let args = [Register::new(10), Register::new(20), Register::new(30)];
    let req = Request::new(Register::new(1), &args);
    assert_eq!(req.num.value(), 1);
    assert_eq!(req.arg[0].value(), 10);
    assert_eq!(req.arg[1].value(), 20);
    assert_eq!(req.arg[2].value(), 30);
    for i in 3..7 {
        assert_eq!(req.arg[i].value(), 0);
    }
}

#[test]
fn request_zero_fills_missing_arguments() {
    let req = Request::new(Register::new(42), &[]);
    assert_eq!(req.num.value(), 42);
    for i in 0..7 {
        assert_eq!(req.arg[i].value(), 0);
    }
}

#[test]
fn request_drops_extra_arguments() {
    let args: Vec<Register> = (1..=9usize).map(Register::new).collect();
    let req = Request::new(Register::new(0), &args);
    for i in 0..7 {
        assert_eq!(req.arg[i].value(), i + 1);
    }
    assert_eq!(std::mem::size_of::<Request>(), 64);
}

#[test]
fn reply_ok_round_trip() {
    let rep = Reply::from_result(Ok([Register::new(11), Register::new(22)]));
    let res = rep.into_result().unwrap();
    assert_eq!(res[0].value(), 11);
    assert_eq!(res[1].value(), 22);
}

#[test]
fn reply_err_round_trip() {
    for code in [1, libc::EBADF, libc::ENOSYS, 4095] {
        let rep = Reply::from_result(Err(code));
        assert_eq!(rep.into_result().unwrap_err(), code);
    }
}

#[test]
fn reply_err_encodes_in_sentinel_band() {
    let rep = Reply::from_result(Err(libc::EBADF));
    let (ret0, ret1, err) = rep.into_words();
    assert_eq!(ret0, (-(libc::EBADF as isize)) as usize);
    assert_eq!(ret1, 0);
    assert_eq!(err, 0);
}

#[test]
fn sentinel_band_success_decodes_as_error() {
    // The known ambiguity of the value-based convention: a genuine result
    // word inside the reserved band is indistinguishable from an error.
    let rep = Reply::from_result(Ok([Register::new(usize::MAX), Register::new(0)]));
    assert_eq!(rep.into_result().unwrap_err(), 1);
}

#[test]
fn codes_outside_the_band_decode_as_success() {
    let rep = Reply::from_result(Err(4096));
    let res = rep.into_result().unwrap();
    assert_eq!(res[0].value(), usize::MAX - 4095);
}

#[test]
fn close_bad_descriptor_reply() {
    // What the host hands back for "close file descriptor -1": EBADF,
    // negated into the first result register.
    let host_word = (-(libc::EBADF as isize)) as usize;
    let rep = Reply::new(Register::new(host_word), Register::default(), Register::default());
    assert_eq!(rep, Reply::from_result(Err(libc::EBADF)));
    assert_eq!(rep.into_result().unwrap_err(), libc::EBADF);
}

#[test]
fn dup_then_close_replies() {
    // What the host hands back for "duplicate descriptor 0": a fresh
    // descriptor, distinct from 0.
    let rep = Reply::new(Register::new(3), Register::default(), Register::default());
    let res = rep.into_result().unwrap();
    assert_ne!(res[0].value(), 0);

    // Closing that descriptor succeeds with a neutral result and no error
    // word set.
    let rep = Reply::new(Register::default(), Register::default(), Register::default());
    let res = rep.into_result().unwrap();
    assert_eq!(res[0].value(), 0);
    assert_eq!(rep.into_words(), (0, 0, 0));
}

#[test]
fn message_request_phase_round_trip() {
    let args = [Register::new(5), Register::new(6)];
    let req = Request::new(Register::new(1), &args);
    let mut msg = Message::new();
    msg.set_request(req);
    let back = msg.request();
    assert_eq!(back.num.value(), 1);
    assert_eq!(back.arg[0].value(), 5);
    assert_eq!(back.arg[1].value(), 6);
    assert_eq!(back.arg[6].value(), 0);
}

#[test]
fn message_reply_overlays_request() {
    let args = [Register::new(5), Register::new(6), Register::new(7)];
    let mut msg = Message::new();
    msg.set_request(Request::new(Register::new(1), &args));
    msg.set_reply(Reply::from_result(Ok([Register::new(9), Register::new(0)])));

    // The reply overwrote only the first three words; the stale trailing
    // request words are still underneath it.
    let rep = msg.reply();
    assert_eq!(rep.into_words(), (9, 0, 0));
    assert_eq!(msg.request().arg[2].value(), 7);
}

#[test]
fn block_starts_idle() {
    let block = Block::new();
    assert_eq!(block.msg.request().num.value(), 0);
    assert_eq!(block.buf.len(), BUF_CAPACITY);
    assert!(block.buf.iter().all(|b| *b == 0));
}
