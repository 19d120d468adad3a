use fleeting::arch::Arch;

#[test]
fn uname_names() {
    assert_eq!(Arch::Arm64.as_uname_m(), "aarch64");
    assert_eq!(Arch::Amd64.as_uname_m(), "x86_64");
}

#[test]
fn dpkg_names() {
    assert_eq!(Arch::Arm64.as_dpkg(), "arm64");
    assert_eq!(Arch::Amd64.as_dpkg(), "amd64");
}

#[test]
fn parse_reads_both_spellings() {
    assert_eq!(Arch::parse("arm64").unwrap(), Arch::Arm64);
    assert_eq!(Arch::parse("aarch64").unwrap(), Arch::Arm64);
    assert_eq!(Arch::parse("amd64").unwrap(), Arch::Amd64);
    assert_eq!(Arch::parse("x86_64").unwrap(), Arch::Amd64);
}

#[test]
fn parse_ignores_case_and_white_space() {
    assert_eq!(Arch::parse("  AArch64\n").unwrap(), Arch::Arm64);
    assert_eq!(Arch::parse("X86_64\r\n").unwrap(), Arch::Amd64);
    assert_eq!(Arch::parse("\tAMD64 ").unwrap(), Arch::Amd64);
}

#[test]
fn parse_refuses_unknown_names() {
    let unknown = Arch::parse(" RiscV64 ").unwrap_err();
    assert_eq!(unknown.name, "riscv64");
    assert_eq!(unknown.message(), "Unknown arch: riscv64");
    assert!(Arch::parse("").is_err());
    assert!(Arch::parse("arm 64").is_err());
    assert!(Arch::parse("x86-64").is_err());
}

#[test]
fn parse_of_printed_names_round_trips() {
    for arch in [Arch::Arm64, Arch::Amd64] {
        assert_eq!(Arch::parse(arch.as_uname_m()).unwrap(), arch);
        assert_eq!(Arch::parse(arch.as_dpkg()).unwrap(), arch);
    }
}

#[test]
fn from_str_is_parse() {
    let arch: Arch = "x86_64\n".parse().unwrap();
    assert_eq!(arch, Arch::Amd64);
    assert!("mips".parse::<Arch>().is_err());
}

#[test]
fn from_str_reads_and_refuses_as_parse_does() {
    use_from_str("  AArch64\n", Some(Arch::Arm64), "aarch64");
    use_from_str("amd64", Some(Arch::Amd64), "amd64");
    use_from_str(" RiscV64 ", None, "riscv64");
    use_from_str("", None, "");
}

fn use_from_str(text: &str, expected: Option<Arch>, plain: &str) {
    match (text.parse::<Arch>(), Arch::parse(text)) {
        (Ok(read), Ok(parsed)) => {
            assert_eq!(Some(read), expected);
            assert_eq!(read, parsed);
        }
        (Err(refused), Err(unknown)) => {
            assert_eq!(expected, None);
            assert_eq!(refused.name, plain);
            assert_eq!(refused.name, unknown.name);
        }
        _ => panic!("from_str and parse disagree on {:?}", text),
    }
}
