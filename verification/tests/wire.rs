use brutus::brutusd::pid;
use brutus::server::pid::Pid;

fn little_endian() -> bool {
    1u32.to_ne_bytes()[0] == 1
}

#[test]
fn pid_write_to_uses_native_order() {
    let bytes = Pid::from(0x0102_0304u32).write_to();
    if little_endian() {
        assert_eq!(bytes, [4, 3, 2, 1]);
    } else {
        assert_eq!(bytes, [1, 2, 3, 4]);
    }
}

#[test]
fn pid_read_from_full_buffer() {
    let pid = Pid::read_from(&[4, 3, 2, 1]);
    let expected = if little_endian() { 0x0102_0304u32 } else { 0x0403_0201u32 };
    assert_eq!(u32::from(pid), expected);
}

#[test]
fn pid_read_from_short_read_pads_with_zeros() {
    let pid = Pid::read_from(&[7]);
    let expected = if little_endian() { 7u32 } else { 7u32 << 24 };
    assert_eq!(u32::from(pid), expected);
    assert_eq!(u32::from(Pid::read_from(&[])), 0);
}

#[test]
fn pid_wire_roundtrip() {
    for value in [0u32, 1, 4242, 0xdead_beef, u32::MAX] {
        let bytes = Pid::from(value).write_to();
        assert_eq!(u32::from(Pid::read_from(&bytes)), value);
    }
}

#[test]
fn pid_conversions_are_inverse() {
    assert_eq!(u32::from(Pid::from(31337u32)), 31337);
}

#[test]
fn brutusd_write_then_read() {
    for pid in [0u32, 2, 65536, 0x7fff_ffff, u32::MAX] {
        assert_eq!(pid::read(pid::write(pid)), pid);
    }
}

#[test]
fn brutusd_read_then_write() {
    let bytes = [9u8, 0, 255, 17];
    assert_eq!(pid::write(pid::read(bytes)), bytes);
}

#[test]
fn brutusd_read_native_order() {
    let expected = if little_endian() { 0x11ff_0009u32 } else { 0x0900_ff11u32 };
    assert_eq!(pid::read([9, 0, 255, 17]), expected);
    if little_endian() {
        assert_eq!(pid::write(1), [1, 0, 0, 0]);
    } else {
        assert_eq!(pid::write(1), [0, 0, 0, 1]);
    }
}
