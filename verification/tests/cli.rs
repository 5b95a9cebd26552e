use emusim::cli::parse_launch_args;
use emusim::noise::{next_noise_word, NOISE_SEED};
use emusim::room::SelectedConsole;

fn args(v: &[&str]) -> Vec<String> {
    v.iter().map(|s| s.to_string()).collect()
}

#[test]
fn console_flag_forms() {
    let o = parse_launch_args(&args(&["emusim", "--console", "ps2"]));
    assert_eq!(o.console, SelectedConsole::PlayStation2);
    assert!(!o.headless);
    assert_eq!(o.screenshot, None);
    let o = parse_launch_args(&args(&["emusim", "-c", "PSX"]));
    assert_eq!(o.console, SelectedConsole::PlayStation1);
    let o = parse_launch_args(&args(&["emusim", "--console=none"]));
    assert_eq!(o.console, SelectedConsole::Unwired);
    // the prefix is trimmed as often as it repeats
    let o = parse_launch_args(&args(&["emusim", "--console=--console=ps1"]));
    assert_eq!(o.console, SelectedConsole::PlayStation1);
    // a trailing flag without a value is ignored, later choices win
    let o = parse_launch_args(&args(&["emusim", "-c", "ps1", "--console"]));
    assert_eq!(o.console, SelectedConsole::PlayStation1);
    let o = parse_launch_args(&args(&["emusim"]));
    assert_eq!(o.console, SelectedConsole::Nintendo64);
}

#[test]
fn screenshot_and_headless_flags() {
    let o = parse_launch_args(&args(&["emusim", "--screenshot", "a.png", "--headless"]));
    assert_eq!(o.screenshot, Some("a.png".to_string()));
    assert!(o.headless);
    let o = parse_launch_args(&args(&["emusim", "-s", "a.png", "--screenshot=b.png", "--test-circuit"]));
    assert_eq!(o.screenshot, Some("b.png".to_string()));
    assert!(o.headless);
}

#[test]
fn noise_generator_steps_the_lcg() {
    let mut s = NOISE_SEED;
    let w = next_noise_word(&mut s);
    let expected = NOISE_SEED.wrapping_mul(6364136223846793005).wrapping_add(1442695040888963407);
    assert_eq!(s, expected);
    assert_eq!(w, (expected >> 32) as u32);
    let mut z = 0u64;
    assert_eq!(next_noise_word(&mut z), (1442695040888963407u64 >> 32) as u32);
}
