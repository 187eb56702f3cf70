use cpu3v2::register::{ByteRegister, WordRegister};

#[test]
fn byte_register_names_and_codes() {
    assert_eq!(ByteRegister::H.name(), "H");
    assert_eq!(ByteRegister::N.name(), "N");
    assert_eq!(ByteRegister::X.code(), 4);
    assert_eq!(ByteRegister::from_code(1), ByteRegister::A);
    assert_eq!(ByteRegister::from_code(9), ByteRegister::A);
}

#[test]
fn word_register_names_and_codes() {
    assert_eq!(WordRegister::HA.name(), "HA");
    assert_eq!(WordRegister::PC.name(), "PC");
    assert_eq!(WordRegister::SP.code(), 5);
    assert_eq!(WordRegister::from_code(6), WordRegister::FL);
}

#[test]
fn registers_parse_from_their_names() {
    assert_eq!("L".parse::<ByteRegister>(), Ok(ByteRegister::L));
    assert_eq!("MN".parse::<WordRegister>(), Ok(WordRegister::MN));
    assert_eq!("R4".parse::<WordRegister>(), Ok(WordRegister::R4));
    assert!("Q".parse::<ByteRegister>().is_err());
    assert!("HA".parse::<ByteRegister>().is_err());
    assert!("h".parse::<ByteRegister>().is_err());
    assert!("".parse::<WordRegister>().is_err());
}

#[test]
fn every_register_name_parses_back() {
    for code in 0..8u8 {
        let b = ByteRegister::from_code(code);
        assert_eq!(b.name().parse::<ByteRegister>(), Ok(b));
        assert_eq!(b.code(), code);
        let w = WordRegister::from_code(code);
        assert_eq!(w.name().parse::<WordRegister>(), Ok(w));
        assert_eq!(w.code(), code);
    }
}

#[test]
fn parse_error_message() {
    let err = "Z".parse::<WordRegister>().unwrap_err();
    assert_eq!(err.message(), "tried to parse invalid register");
}
