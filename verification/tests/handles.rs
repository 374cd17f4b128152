use pigpiod_if2::Pigpio;

#[test]
fn nonnegative_connect_reply_is_kept_exactly() {
    let p = Pigpio::new(0).expect("non-negative reply");
    assert_eq!(p.handle(), 0);
    let p = Pigpio::new(3).expect("non-negative reply");
    assert_eq!(p.handle(), 3);
    let p = Pigpio::new(i32::MAX).expect("non-negative reply");
    assert_eq!(p.handle(), i32::MAX);
}

#[test]
fn nonnegative_open_reply_is_kept_exactly() {
    let p = Pigpio::new(3).expect("non-negative reply");
    let s = p.spi(0).expect("non-negative reply");
    assert_eq!(s.pi_handle(), 3);
    assert_eq!(s.spi_handle(), 0);
    let s = p.spi(i32::MAX).expect("non-negative reply");
    assert_eq!(s.spi_handle(), i32::MAX as u32);
}

#[test]
fn nonnegative_transfer_replies_are_exact_counts() {
    let s = Pigpio::new(0).expect("connect").spi(1).expect("open");
    assert_eq!(s.read(0).expect("non-negative reply"), 0);
    assert_eq!(s.read(17).expect("non-negative reply"), 17);
    assert_eq!(s.write(24).expect("non-negative reply"), 24);
    assert_eq!(s.xfer(5).expect("non-negative reply"), 5);
    assert_eq!(s.xfer(i32::MAX).expect("non-negative reply"), i32::MAX as usize);
}

#[test]
fn connection_release_yields_the_stop_action_once() {
    let mut p = Pigpio::new(42).expect("connect");
    assert_eq!(p.release(), Some(42));
    assert_eq!(p.release(), None);
    assert_eq!(p.release(), None);
}

#[test]
fn spi_release_yields_the_close_action_once() {
    let p = Pigpio::new(3).expect("connect");
    let mut s = p.spi(5).expect("open");
    assert_eq!(s.release(), Some((3, 5)));
    assert_eq!(s.release(), None);
    assert_eq!(s.release(), None);
}

#[test]
fn failed_operations_do_not_change_the_release_action() {
    let p = Pigpio::new(7).expect("connect");
    let mut s = p.spi(2).expect("open");
    assert!(s.read(-25).is_err());
    assert!(s.write(-84).is_err());
    assert!(s.xfer(-89).is_err());
    assert!(s.xfer_request(1, 2).is_err());
    assert_eq!(s.release(), Some((7, 2)));
    assert_eq!(s.release(), None);
}

#[test]
fn led_strip_session() {
    // A whole session as an LED-strip driver would run it, with the
    // daemon's replies played in and its calls counted.
    let mut stop_calls: u32 = 0;
    let mut close_calls: u32 = 0;

    let mut conn = Pigpio::new(3).expect("connect replied 3");
    assert_eq!(conn.handle(), 3);

    let mut spi = conn.spi(5).expect("open replied 5");
    assert_eq!(spi.pi_handle(), 3);
    assert_eq!(spi.spi_handle(), 5);

    let written = spi.write(24).expect("write replied 24");
    assert_eq!(written, 24);

    if let Some((pi, handle)) = spi.release() {
        assert_eq!((pi, handle), (3, 5));
        close_calls += 1;
    }
    if spi.release().is_some() {
        close_calls += 1;
    }
    assert_eq!(close_calls, 1);

    if let Some(pi) = conn.release() {
        assert_eq!(pi, 3);
        stop_calls += 1;
    }
    if conn.release().is_some() {
        stop_calls += 1;
    }
    assert_eq!(stop_calls, 1);
}
