use sega_controller::mega_drive::controller::MegaDriveButton;
use sega_controller::Error;

const ALL: [MegaDriveButton; 12] = [
    MegaDriveButton::Up,
    MegaDriveButton::Down,
    MegaDriveButton::Left,
    MegaDriveButton::Right,
    MegaDriveButton::A,
    MegaDriveButton::B,
    MegaDriveButton::C,
    MegaDriveButton::Start,
    MegaDriveButton::X,
    MegaDriveButton::Y,
    MegaDriveButton::Z,
    MegaDriveButton::Mode,
];

#[test]
fn flags_follow_the_wiring() {
    assert_eq!(MegaDriveButton::Up.as_flag(), 0x001);
    assert_eq!(MegaDriveButton::Down.as_flag(), 0x002);
    assert_eq!(MegaDriveButton::Left.as_flag(), 0x004);
    assert_eq!(MegaDriveButton::Right.as_flag(), 0x008);
    assert_eq!(MegaDriveButton::B.as_flag(), 0x010);
    assert_eq!(MegaDriveButton::C.as_flag(), 0x020);
    assert_eq!(MegaDriveButton::A.as_flag(), 0x040);
    assert_eq!(MegaDriveButton::Start.as_flag(), 0x080);
    assert_eq!(MegaDriveButton::Z.as_flag(), 0x100);
    assert_eq!(MegaDriveButton::Y.as_flag(), 0x200);
    assert_eq!(MegaDriveButton::X.as_flag(), 0x400);
    assert_eq!(MegaDriveButton::Mode.as_flag(), 0x800);
}

#[test]
fn no_two_buttons_share_a_flag() {
    for (i, a) in ALL.iter().enumerate() {
        for (j, b) in ALL.iter().enumerate() {
            assert_eq!(a.as_flag() == b.as_flag(), i == j);
            assert_eq!(a.as_flag() & b.as_flag() != 0, i == j);
        }
    }
}

#[test]
fn flags_are_single_bits_of_the_low_twelve() {
    let mut joined: u16 = 0;
    for button in ALL.iter() {
        let flag = button.as_flag();
        assert_eq!(flag.count_ones(), 1);
        joined |= flag;
    }
    assert_eq!(joined, 0x0fff);
}

#[test]
fn a_line_failure_becomes_other() {
    let wrapped: Error<u8> = Error::from(5u8);
    assert_eq!(wrapped, Error::Other(5u8));
    assert_ne!(wrapped, Error::NotPresent);
    let text: Error<&str> = "stuck".into();
    assert_eq!(text, Error::Other("stuck"));
}
