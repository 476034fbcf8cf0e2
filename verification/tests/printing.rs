use slowprint::DEFAULT_PRINT_DELAY_MS;
use slowprint::Sink;
use slowprint::print;
use slowprint::slow_print;
use slowprint::slow_println;

#[test]
fn test_slow_print() {
    let delay_ms: u64 = 50;
    let mut sink = Sink::new();
    let r = slow_print("Hello, Rust.", delay_ms, &mut sink);
    assert!(r.is_ok());
    assert!(sink.slept_ms >= delay_ms as u128);
}

#[test]
fn test_slow_println() {
    let delay_ms: u64 = 100;
    let mut sink = Sink::new();
    let r = slow_println("Hello, Rust.", delay_ms, &mut sink);
    assert!(r.is_ok());
    assert!(sink.slept_ms >= delay_ms as u128);
}

#[test]
fn test_print() {
    let mut sink = Sink::new();
    let r = print("Hello, Rust.", &mut sink);
    assert!(r.is_ok());
    assert!(sink.slept_ms >= DEFAULT_PRINT_DELAY_MS as u128);
}

#[test]
fn test_println() {
    let mut sink = Sink::new();
    let r = slowprint::println("Hello, Rust.", &mut sink);
    assert!(r.is_ok());
    assert!(sink.slept_ms >= DEFAULT_PRINT_DELAY_MS as u128);
}
