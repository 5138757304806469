use milk_and_cookies::{board, game_board, milk, place, random_board, refill, request_unit, reset, AppState, RateLimiter, Unit, CAPACITY};

#[test]
fn bucket_cycle() {
    let mut r = RateLimiter::new();
    assert_eq!(r.tokens(), CAPACITY);
    for _ in 0..5 {
        assert!(r.try_consume());
    }
    assert!(!r.try_consume());
    assert_eq!(r.tokens(), 0);
    r.refill_tick();
    assert!(r.try_consume());
    assert!(!r.try_consume());
    r.refill_tick();
    r.refill_tick();
    r.force_refill();
    assert_eq!(r.tokens(), 5);
    r.refill_tick();
    assert_eq!(r.tokens(), 5);
}

#[test]
fn many_callers_admit_exactly_the_count() {
    for n in 0..=5u32 {
        let mut r = RateLimiter::new();
        for _ in n..5 {
            r.try_consume();
        }
        assert_eq!(r.tokens(), n);
        let admitted = (0..20).filter(|_| r.try_consume()).count();
        assert_eq!(admitted, n as usize);
        assert_eq!(r.tokens(), 0);
    }
}

#[test]
fn milk_is_rate_limited() {
    let mut st = AppState::new();
    for _ in 0..4 {
        let r = milk(&mut st, "text/plain").unwrap();
        assert_eq!(r.status, 200);
        assert_eq!(r.body, "Milk withdrawn\n");
    }
    assert!(milk(&mut st, "application/json").is_none());
    let r = milk(&mut st, "text/plain").unwrap();
    assert_eq!(r.status, 429);
    assert_eq!(r.body, "No milk available\n");
    refill(&mut st);
    assert_eq!(st.bucket.tokens(), 5);
    assert_eq!(milk(&mut st, "text/plain").unwrap().status, 200);
}

#[test]
fn place_answers() {
    let mut st = AppState::new();
    let r = place(&mut st, "tea", 1);
    assert_eq!((r.status, r.body.as_str()), (400, "invalid team"));
    let r = place(&mut st, "milk", 0);
    assert_eq!((r.status, r.body.as_str()), (400, "invalid column"));
    let r = place(&mut st, "milk", 5);
    assert_eq!((r.status, r.body.as_str()), (400, "invalid column"));
    for c in 1..=3 {
        assert_eq!(place(&mut st, "cookie", c).status, 200);
    }
    let r = place(&mut st, "cookie", 4);
    assert_eq!(r.status, 200);
    assert!(r.body.ends_with("\u{1F36A} wins!\n"));
    let r = place(&mut st, "milk", 1);
    assert_eq!(r.status, 503);
    assert_eq!(r.body, board(&st).body);
    assert_eq!(board(&st).status, 200);

    let text = reset(&mut st);
    assert_eq!(text, game_board(&st.game));
    for _ in 0..4 {
        assert_eq!(place(&mut st, "milk", 2).status, 200);
    }
    let r = place(&mut st, "cookie", 2);
    assert_eq!(r.status, 503);
}

#[test]
fn board_verdicts() {
    let mut st = AppState::new();
    assert!(!board(&st).body.contains("wins"));
    for c in 1..=4 {
        place(&mut st, "milk", c);
    }
    assert!(board(&st).body.ends_with("\u{1F95B} wins!\n"));
    reset(&mut st);
    let text = random_board(&mut st);
    assert_eq!(text, st.game.render());
    let shown = board(&st).body;
    assert!(shown.starts_with(&text));
    let tail = &shown[text.len()..];
    assert!(tail == "No winner.\n" || tail.ends_with(" wins!\n"));
}

#[test]
fn conversion_request_needs_one_known_unit() {
    let keys = |ks: &[&str]| ks.iter().map(|k| k.to_string()).collect::<Vec<String>>();
    assert_eq!(request_unit(&keys(&["liters"])), Some(Unit::Liters));
    assert_eq!(request_unit(&keys(&["litres"])), Some(Unit::Litres));
    assert_eq!(request_unit(&keys(&["gallons"])), Some(Unit::Gallons));
    assert_eq!(request_unit(&keys(&["pints"])), Some(Unit::Pints));
    assert_eq!(request_unit(&keys(&["cups"])), None);
    assert_eq!(request_unit(&keys(&[])), None);
    assert_eq!(request_unit(&keys(&["liters", "pints"])), None);
}
