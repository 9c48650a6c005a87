use sidecar_boot::triple::{target_triple, FALLBACK_TRIPLE};

#[test]
fn triple_macos_aarch64() {
    assert_eq!(target_triple("macos", "aarch64"), "aarch64-apple-darwin");
}

#[test]
fn triple_macos_x86_64() {
    assert_eq!(target_triple("macos", "x86_64"), "x86_64-apple-darwin");
}

#[test]
fn triple_windows_x86_64() {
    assert_eq!(target_triple("windows", "x86_64"), "x86_64-pc-windows-msvc");
}

#[test]
fn triple_linux_aarch64() {
    assert_eq!(target_triple("linux", "aarch64"), "aarch64-unknown-linux-gnu");
}

#[test]
fn triple_linux_x86_64() {
    assert_eq!(target_triple("linux", "x86_64"), "x86_64-unknown-linux-gnu");
}

#[test]
fn triple_unsupported_pairs_fall_back() {
    assert_eq!(FALLBACK_TRIPLE, "aarch64-apple-darwin");
    assert_eq!(target_triple("windows", "aarch64"), FALLBACK_TRIPLE);
    assert_eq!(target_triple("freebsd", "x86_64"), FALLBACK_TRIPLE);
    assert_eq!(target_triple("linux", "riscv64"), FALLBACK_TRIPLE);
    assert_eq!(target_triple("", ""), FALLBACK_TRIPLE);
    assert_eq!(target_triple("Linux", "x86_64"), FALLBACK_TRIPLE);
}
