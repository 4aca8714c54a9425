use leadrscribe::cpu::{check_cpu_capabilities, supports_parakeet};

#[test]
fn test_cpu_detection() {
    let caps = check_cpu_capabilities(false, false);
    println!("CPU Capabilities: {:?}", caps);
}

#[test]
fn parakeet_needs_both_features() {
    assert!(supports_parakeet(true, true));
    assert!(!supports_parakeet(true, false));
    assert!(!supports_parakeet(false, true));
    let caps = check_cpu_capabilities(true, false);
    assert!(caps.has_avx);
    assert!(!caps.has_avx2);
    assert!(!caps.supports_parakeet);
}
